//! Verified core of rspc: error codes and errors, procedure registration,
//! request dispatch decisions, subscriptions and cookie handling.

pub mod alpha;
pub mod alpha_error;
pub mod alpha_stable;
pub mod axum_params;
pub mod compiled_router;
pub mod config;
pub mod content_type;
pub mod context;
pub mod cookie_jar;
pub mod error;
pub mod error_code;
pub mod handle_request;
pub mod http;
pub mod ids;
pub mod json;
pub mod layer_result;
pub mod message;
pub mod middleware_poll;
pub mod procedure_store;
pub mod subscriptions;

pub use alpha::{AlphaBaseMiddleware, AlphaProcedure, AlphaRouter, Router, Rspc};
pub use alpha_error::{AlphaError, AlphaExecError};
pub use alpha_stable::{MissingResolver, RequestKind, RequestLayerMarker, StreamLayerMarker};
pub use compiled_router::CompiledRouter;
pub use config::{Config, ExportConfig};
pub use content_type::{ContentType, ContentTypes, Json};
pub use context::Context;
pub use cookie_jar::{CookieData, CookieJar};
pub use error::{Error, ExecError, ExportError, JsonRpcError};
pub use error_code::ErrorCode;
pub use handle_request::{OperationKey, OperationKind, Request, Response};
pub use json::JsonValue;
pub use subscriptions::ClientContext;
