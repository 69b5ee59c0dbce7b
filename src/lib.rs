//! Cookie-backed login management for HTTP services.
//!
//! A request carries a [`LoginInfo`] record from the moment the middleware
//! decodes the inbound session cookie until the response is written back,
//! when the login or logout decided by the handler is sealed into a new
//! cookie.
pub mod cookie_session;
pub mod extractors;
pub mod identity;
pub mod login_info;
pub mod manager;
pub mod payload;
mod text;

pub use cookie_session::{CookieSession, SameSite};
pub use extractors::{AuthContext, AuthUser, CurrentUser, Rejection, UserSlot};
pub use identity::HeaderText;
pub use manager::{LoginManager, LoginManagerMiddleware, ResponsePlan};
pub use login_info::{Intent, IntentModel, LoginInfo, LoginInfoInner, LoginState};
