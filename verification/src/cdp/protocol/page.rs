//! The `Page` domain.

use vstd::prelude::*;
use crate::cdp::protocol::{Command, EmptyParams, EmptyResponse};

verus! {

/// `Page.enable`.
pub struct Enable;

impl Command for Enable {
    type Params = EmptyParams;
    type Response = EmptyResponse;

    const METHOD: &'static str = "Page.enable";
}

/// `Page.setLifecycleEventsEnabled`.
pub struct SetLifecycleEventsEnabled;

impl Command for SetLifecycleEventsEnabled {
    type Params = SetLifecycleEventsEnabledParams;
    type Response = EmptyResponse;

    const METHOD: &'static str = "Page.setLifecycleEventsEnabled";
}

/// Whether lifecycle events are reported.
pub struct SetLifecycleEventsEnabledParams {
    pub enabled: bool,
}

/// `Page.addScriptToEvaluateOnNewDocument`: a script that runs before any
/// of a page's own scripts on every later navigation.
pub struct AddScriptToEvaluateOnNewDocument;

impl Command for AddScriptToEvaluateOnNewDocument {
    type Params = AddScriptToEvaluateOnNewDocumentParams;
    type Response = AddScriptToEvaluateOnNewDocumentResponse;

    const METHOD: &'static str = "Page.addScriptToEvaluateOnNewDocument";
}

/// The script's source.
pub struct AddScriptToEvaluateOnNewDocumentParams {
    pub source: String,
}

/// The id the script was registered under.
pub struct AddScriptToEvaluateOnNewDocumentResponse {
    pub identifier: String,
}

/// `Page.navigate`.
pub struct Navigate;

impl Command for Navigate {
    type Params = NavigateParams;
    type Response = NavigateResponse;

    const METHOD: &'static str = "Page.navigate";
}

/// Where to navigate.
pub struct NavigateParams {
    pub url: String,
}

/// The navigated frame, its loader, and the error text of a navigation
/// that failed.
pub struct NavigateResponse {
    pub frame_id: String,
    pub loader_id: Option<String>,
    pub error_text: Option<String>,
}

/// `Page.captureScreenshot`.
pub struct CaptureScreenshot;

impl Command for CaptureScreenshot {
    type Params = CaptureScreenshotParams;
    type Response = CaptureScreenshotResponse;

    const METHOD: &'static str = "Page.captureScreenshot";
}

/// The image format and quality; absent ones are left out.
pub struct CaptureScreenshotParams {
    pub format: Option<String>,
    pub quality: Option<i64>,
}

impl Default for CaptureScreenshotParams {
    fn default() -> (r: Self)
        ensures
            r.format is None,
            r.quality is None,
    {
        CaptureScreenshotParams { format: None, quality: None }
    }
}

/// The base64-encoded image.
pub struct CaptureScreenshotResponse {
    pub data: String,
}

/// `Page.startScreencast`.
pub struct StartScreencast;

impl Command for StartScreencast {
    type Params = StartScreencastParams;
    type Response = EmptyResponse;

    const METHOD: &'static str = "Page.startScreencast";
}

/// How frames are streamed; absent settings are left out.
pub struct StartScreencastParams {
    pub format: Option<String>,
    pub quality: Option<i64>,
    pub max_width: Option<i64>,
    pub max_height: Option<i64>,
    pub every_nth_frame: Option<i64>,
}

impl Default for StartScreencastParams {
    fn default() -> (r: Self)
        ensures
            r.format is None,
            r.quality is None,
            r.max_width is None,
            r.max_height is None,
            r.every_nth_frame is None,
    {
        StartScreencastParams { format: None, quality: None, max_width: None, max_height: None, every_nth_frame: None }
    }
}

/// `Page.stopScreencast`.
pub struct StopScreencast;

impl Command for StopScreencast {
    type Params = EmptyParams;
    type Response = EmptyResponse;

    const METHOD: &'static str = "Page.stopScreencast";
}

/// `Page.screencastFrameAck`.
pub struct ScreencastFrameAck;

impl Command for ScreencastFrameAck {
    type Params = ScreencastFrameAckParams;
    type Response = EmptyResponse;

    const METHOD: &'static str = "Page.screencastFrameAck";
}

/// The acknowledged frame's own sequence number (sent as `sessionId`; it
/// is not the CDP session id that routes messages).
pub struct ScreencastFrameAckParams {
    pub session_id: i64,
}

} // verus!
