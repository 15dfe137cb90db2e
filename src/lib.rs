//! Authentication core of a small publishing backend: credential records,
//! password and recovery-code hashing, signed expiring tokens, the route
//! guard and the password-recovery protocol.

pub mod clock;
pub mod controller_user;
pub mod error;
pub mod laws;
pub mod model_user;
pub mod password;
pub mod post;
pub mod recovery;
pub mod role;
pub mod text;
pub mod token;

pub use controller_user::ControllerUser;
pub use error::{ApiError, ErrorKind};
pub use model_user::{
    CodeEmailPayload, EmailPayload, LoginRequest, LoginResponse, ModelUser, RecoveryCode,
    UpdatePasswordPayload, User, UserCode, UserPassword, UserRequest, UserRequestLoginSchema,
    UserRequestRegister, UserRequestRegisterSchema,
};
pub use post::{generate_slug, ControllerPost, PostRequest, PostRequestItem};
pub use recovery::generate_code;
pub use role::Role;
pub use token::{Claims, ClaimsFG, HelperMiddlewareToken};
