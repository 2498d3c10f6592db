//! What each HTTP operation answers, as envelopes. The server itself only
//! routes requests to these functions and serialises what they return.

use vstd::prelude::*;
use crate::downloader::{fetch_error_spec, FetchError, HubFailure};
use crate::hub::{debug_text, path_debug};
use crate::envelope::{ApiResponse, EnvelopeView};

verus! {

/// The identity and state that the server reports about itself.
pub struct ServerInfo {
    pub name: String,
    pub version: String,
    pub status: String,
    pub mode: String,
}

impl View for ServerInfo {
    type V = (Seq<char>, Seq<char>, Seq<char>, Seq<char>);

    open spec fn view(&self) -> (Seq<char>, Seq<char>, Seq<char>, Seq<char>) {
        (self.name@, self.version@, self.status@, self.mode@)
    }
}

/// The envelope that answers a model download with the given outcome.
pub open spec fn download_reply(result: Result<String, FetchError>) -> EnvelopeView<Seq<char>> {
    match result {
        Ok(dir) => EnvelopeView {
            success: true,
            data: Some("模型已下载到: "@ + debug_text(dir@)),
            error: None,
        },
        Err(e) => EnvelopeView {
            success: false,
            data: None,
            error: Some("下载失败: "@ + e.message_spec()),
        },
    }
}

/// The server's identity, version `version`, running in native mode.
pub fn get_server_info(version: &str) -> (r: ApiResponse<ServerInfo>)
    ensures
        r@ == (EnvelopeView {
            success: true,
            data: Some(("Model Runner"@, version@, "running"@, "rust-native"@)),
            error: None,
        }),
        r@.well_formed(),
{
    let info = ServerInfo {
        name: String::from_str("Model Runner"),
        version: String::from_str(version),
        status: String::from_str("running"),
        mode: String::from_str("rust-native"),
    };
    ApiResponse::ok(info)
}

/// The liveness answer: always a success carrying `healthy`.
pub fn health_check() -> (r: ApiResponse<String>)
    ensures
        r@ == (EnvelopeView { success: true, data: Some("healthy"@), error: None }),
        r@.well_formed(),
{
    ApiResponse::ok(String::from_str("healthy"))
}

/// The output format of a synthesis request that names none.
pub fn default_format() -> (r: String)
    ensures
        r@ == "wav"@,
{
    String::from_str("wav")
}

/// The acknowledgment of a synthesis request. No audio is produced yet.
pub fn synthesize(text: &str, format: &str) -> (r: ApiResponse<String>)
    ensures
        r@ == (EnvelopeView {
            success: true,
            data: Some(
                "模拟 TTS 合成成功: "@ + text@ + " (format: "@ + format@
                    + ")\n实际音频生成将在 Candle 集成后实现"@,
            ),
            error: None,
        }),
        r@.well_formed(),
{
    let reply = String::from_str("模拟 TTS 合成成功: ")
        .concat(text)
        .concat(" (format: ")
        .concat(format)
        .concat(")\n实际音频生成将在 Candle 集成后实现");
    ApiResponse::ok(reply)
}

/// The envelope for a download outcome: the model directory in its quoted
/// `Debug` form on success, the failure's message otherwise.
pub fn download_response(result: Result<String, FetchError>) -> (r: ApiResponse<String>)
    ensures
        r@ == download_reply(result),
        r@.well_formed(),
{
    match result {
        Ok(dir) => {
            let shown = path_debug(dir.as_str());
            ApiResponse::ok(String::from_str("模型已下载到: ").concat(shown.as_str()))
        },
        Err(e) => {
            let message = e.message();
            ApiResponse::fail(String::from_str("下载失败: ").concat(message.as_str()))
        },
    }
}

/// Every download outcome is answered by an envelope with exactly one of data
/// and error, and `success` tells which.
pub proof fn lemma_download_reply_exclusive(result: Result<String, FetchError>)
    ensures
        download_reply(result).well_formed(),
        download_reply(result).success <==> result is Ok,
{
}

/// Every failure kind reaches the answer as a failure with a non-empty
/// message; none is answered as a success.
pub proof fn lemma_every_failure_reported(e: FetchError)
    ensures
        !download_reply(Err(e)).success,
        download_reply(Err(e)).data is None,
        download_reply(Err(e)).error matches Some(m) && m.len() > 0,
{
    reveal_strlit("下载失败: ");
}

/// Every failure of the hub client reaches the answer as a failure with a
/// non-empty message, and never as a refused identifier.
pub proof fn lemma_hub_failures_reported(failure: HubFailure, detail: String)
    ensures
        fetch_error_spec(failure, detail) != FetchError::InvalidIdentifier,
        !download_reply(Err(fetch_error_spec(failure, detail))).success,
        download_reply(Err(fetch_error_spec(failure, detail))).error matches Some(m) && m.len() > 0,
{
    lemma_every_failure_reported(fetch_error_spec(failure, detail));
}

} // verus!
