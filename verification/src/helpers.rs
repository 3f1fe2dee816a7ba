//! Convenience operations built on `BoxApi`: run a command, read and write text files,
//! stop a box.
use vstd::prelude::*;

use crate::client::{
    box_path, command_call, file_read_call, plain_call, valid_box_id, ApiRequest, BoxApi,
    HttpMethod, RequestBody,
};
use crate::config::DEFAULT_COMMAND_TIMEOUT_SECS;
use crate::error::Error;
use crate::text::{blank, owned};
use crate::types::{opt_view, CommandRequest, FileWriteRequest};

verus! {

/// Runs `command` in the box, in `cwd` when given, with `timeout_seconds` (30 when omitted).
pub fn exec_command(
    api: &BoxApi,
    box_id: &str,
    command: &str,
    cwd: Option<&str>,
    timeout_seconds: Option<u32>,
) -> (r: Result<ApiRequest, Error>)
    ensures
        !valid_box_id(box_id@) ==> (r matches Err(Error::InvalidBoxId(s)) && s@ == box_id@),
        valid_box_id(box_id@) ==> (r matches Ok(q) && {
            let t = match timeout_seconds {
                Some(t) => t,
                None => DEFAULT_COMMAND_TIMEOUT_SECS,
            };
            &&& command_call(q, *api, box_id@, Some(t))
            &&& q.body matches RequestBody::Command(c)
            &&& c.command@ == command@
            &&& opt_view(c.cwd) == match cwd {
                Some(d) => Some(d@),
                None => None,
            }
            &&& c.timeout_seconds == Some(t)
            &&& c.detached is None
        }),
{
    let t = match timeout_seconds {
        Some(t) => t,
        None => DEFAULT_COMMAND_TIMEOUT_SECS,
    };
    let mut req = CommandRequest::new(command).with_timeout_seconds(t);
    if let Some(cwd) = cwd {
        req = req.with_cwd(cwd);
    }
    api.command(box_id, req)
}

/// Reads a text file (`encoding: utf8`).
pub fn read_text(api: &BoxApi, box_id: &str, path: &str) -> (r: Result<ApiRequest, Error>)
    ensures
        blank(path@) ==> (r matches Err(Error::Config(m)) && m@ == "file path must not be empty"@),
        !blank(path@) && !valid_box_id(box_id@) ==> (r matches Err(Error::InvalidBoxId(s)) && s@
            == box_id@),
        !blank(path@) && valid_box_id(box_id@) ==> (r matches Ok(q) && file_read_call(
            q,
            *api,
            box_id@,
            path@,
            Some("utf8"@),
        )),
{
    api.read_file(box_id, path, Some("utf8"))
}

/// The text a read returns: the file content, or empty when the response holds none.
pub fn text_content(content: Option<String>) -> (r: String)
    ensures
        r@ == match content {
            Some(c) => c@,
            None => Seq::<char>::empty(),
        },
{
    match content {
        Some(c) => c,
        None => String::new(),
    }
}

/// Writes a text file (`encoding: utf8`).
pub fn write_text(api: &BoxApi, box_id: &str, path: &str, content: &str) -> (r: Result<
    ApiRequest,
    Error,
>)
    ensures
        blank(path@) ==> (r matches Err(Error::Config(m)) && m@ == "file path must not be empty"@),
        !blank(path@) && !valid_box_id(box_id@) ==> (r matches Err(Error::InvalidBoxId(s)) && s@
            == box_id@),
        !blank(path@) && valid_box_id(box_id@) ==> (r matches Ok(q) && plain_call(
            q,
            *api,
            HttpMethod::Post,
            box_path(box_id@) + "/files"@,
            1,
        ) && (q.body matches RequestBody::WriteFile(w) && w.path@ == path@ && w.content@
            == content@ && opt_view(w.encoding) == Some("utf8"@))),
{
    api.write_file(
        box_id,
        FileWriteRequest {
            path: owned(path),
            content: owned(content),
            encoding: Some(owned("utf8")),
        },
    )
}

/// Stops a box and keeps its snapshots.
pub fn stop_and_remove(api: &BoxApi, box_id: &str) -> (r: Result<ApiRequest, Error>)
    ensures
        !valid_box_id(box_id@) ==> (r matches Err(Error::InvalidBoxId(s)) && s@ == box_id@),
        valid_box_id(box_id@) ==> (r matches Ok(q) && plain_call(
            q,
            *api,
            HttpMethod::Post,
            box_path(box_id@) + "/stop"@,
            1,
        ) && (q.body matches RequestBody::Stop(s) && s.force is None)),
{
    api.stop(box_id, None)
}

} // verus!
