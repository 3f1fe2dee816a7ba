//! Client library for the Ascii Box Public API v1: configuration, request planning for
//! every operation, error mapping, the retry and wait rules, and log-safe renderings.
pub mod client;
pub mod config;
pub mod duration;
pub mod error;
pub mod helpers;
pub mod render;
pub mod text;
pub mod types;
pub mod wait;

pub use client::{
    is_success, map_error, retry_delay, truncate_lossy, validate_box_id, validate_file_path,
    ApiRequest, BoxApi, HttpMethod, RequestBody, BOX_ID_BODY_LEN, ERROR_BODY_MAX,
    GET_MAX_ATTEMPTS, GET_MAX_RETRIES, GET_RETRY_BASE_MILLIS,
};
pub use config::{Configuration, UrlParts};
pub use duration::Duration;
pub use error::{Error, HttpError, Result};
pub use helpers::{exec_command, read_text, stop_and_remove, text_content, write_text};
pub use types::{
    is_none_ttl, ApiErrorBody, ApiErrorDetail, BoxState, BoxUser, BoxesQuery, CommandRequest,
    CommandResponse, CreateBoxRequest, FileReadQuery, FileWriteRequest, HostPortRequest,
    HostPortResponse, MeResponse, PageInfo, ResumeRequest, SshKeyRequest, SshKeyResponse,
    StopRequest, TtlSeconds, UpdateBoxRequest, LimitsResponse, FileReadResponse, FileWriteResponse,
};
pub use wait::{wait_step, WaitOptions, WaitStep};
