//! Credential and session authority plus a transactional object store.
//!
//! The library holds the decisions of both services. Database round trips and
//! filesystem work are performed by the caller, which hands each result back to
//! the next step; every step states exactly what it returns for each result.
pub mod access;
pub mod api;
pub mod clock;
pub mod decimal;
pub mod error;
pub mod files;
pub mod jwt;
pub mod model;
pub mod password;
pub mod service;
pub mod settings;
pub mod storage;
pub mod text;

pub use access::{bearer_token, check_table_access, is_protected_table, is_valid_table_name, TableAccess};
pub use api::{
    AuthResponse, CreateServiceAccountRequest, DeleteResponse, ErrorResponse, FileResponse,
    LoginRequest, SignupRequest, UploadResponse, UserResponse,
};
pub use error::{AuthError, StorageError};
pub use files::{File, TransactionalStorageService, UserStorageStats};
pub use jwt::{generate_token, validate_token, Claims};
pub use model::{Role, Session, User};
pub use password::{hash_password, verify_password};
pub use service::AuthService;
pub use settings::{AppConfig, AuthConfig, ConfigError, DatabaseConfig, ServerConfig};
pub use storage::{FileMetadata, StorageService};
