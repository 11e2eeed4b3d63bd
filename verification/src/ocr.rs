use vstd::prelude::*;

verus! {

use vstd::pervasive::unreached;
use vstd::utf8::{valid_utf8, decode_utf8};
use crate::errors::ErrorKind;
use crate::invoke::{InvokeOutcome, invocation_result};
use crate::platform::{
    PlatformTarget,
    Invocation,
    is_macos_ocr_invocation,
    is_windows_ocr_invocation,
    macos_ocr_script,
    macos_ocr_script_view,
    perform_system_ocr,
};
use crate::temp::{temp_name_seq, joined_path_seq, allocate, lemma_temp_names_unique};

// ------------------------------------------------------------------
// Decoding the input image and the engine's output
// ------------------------------------------------------------------

/// What standard-alphabet, padded base64 decoding makes of `s`: the decoded
/// bytes, or `None` where `s` is not well-formed base64.
pub uninterp spec fn b64_decode_of(s: Seq<char>) -> Option<Seq<u8>>;

/// Relies on base64's `Engine::decode` with the `STANDARD` engine: for that
/// fixed engine the result depends on the input characters alone, and is `Ok`
/// exactly on well-formed standard-alphabet base64.
#[verifier::external_body]
fn decode_base64(s: &str) -> (r: Option<Vec<u8>>)
    ensures
        match r {
            Some(v) => b64_decode_of(s@) == Some(v@),
            None => b64_decode_of(s@) is None,
        },
{
    base64::Engine::decode(&base64::engine::general_purpose::STANDARD, s).ok()
}

/// Relies on `String::from_utf8`: it returns `Ok` exactly on valid UTF-8,
/// yielding the string those bytes encode.
#[verifier::external_body]
fn bytes_to_text(bytes: Vec<u8>) -> (r: Option<String>)
    ensures
        match r {
            Some(s) => valid_utf8(bytes@) && s@ == decode_utf8(bytes@),
            None => !valid_utf8(bytes@),
        },
{
    String::from_utf8(bytes).ok()
}

/// The recognized text an engine invocation outcome yields: the captured
/// standard output of a clean exit, decoded as text; otherwise the error the
/// outcome normalizes to.
pub open spec fn ocr_text_verdict(outcome: InvokeOutcome) -> Result<Seq<char>, ErrorKind> {
    match outcome {
        InvokeOutcome::LaunchFailed => Err(ErrorKind::LaunchError),
        InvokeOutcome::Exited { success, stdout } => if !success {
            Err(ErrorKind::ExecutionError)
        } else if valid_utf8(stdout@) {
            Ok(decode_utf8(stdout@))
        } else {
            Err(ErrorKind::OutputEncodingError)
        },
    }
}

/// A pipeline verdict, with the recognized text by its characters.
pub open spec fn verdict_view(r: Result<String, ErrorKind>) -> Result<Seq<char>, ErrorKind> {
    match r {
        Ok(s) => Ok(s@),
        Err(e) => Err(e),
    }
}

/// Normalizes an engine invocation outcome into the pipeline's verdict. A
/// spawn failure and a failure exit stay distinct, and the standard output of
/// a clean exit is read as text or rejected as `OutputEncodingError`.
pub fn ocr_engine_verdict(outcome: InvokeOutcome) -> (r: Result<String, ErrorKind>)
    ensures
        verdict_view(r) == ocr_text_verdict(outcome),
{
    match invocation_result(outcome) {
        Err(e) => Err(e),
        Ok(bytes) => match bytes_to_text(bytes) {
            Some(text) => Ok(text),
            None => Err(ErrorKind::OutputEncodingError),
        },
    }
}

/// Ends a request at once with a failure verdict.
fn fail_flow(
    target: PlatformTarget,
    temp_dir: String,
    image_base64: String,
    kind: ErrorKind,
) -> (r: (OcrFlow, OcrAction))
    ensures
        r.0.target == target,
        r.0.temp_dir@ == temp_dir@,
        r.0.image_base64@ == image_base64@,
        r.0.wf(),
        finish_step(r.0, r.1, Err(kind)),
{
    let flow = OcrFlow {
        target,
        temp_dir,
        image_base64,
        phase: OcrPhase::Done { verdict: Err(kind) },
    };
    (flow, OcrAction::Finish { verdict: Err(kind) })
}

fn clone_verdict(v: &Result<String, ErrorKind>) -> (r: Result<String, ErrorKind>)
    ensures
        verdict_view(r) == verdict_view(*v),
{
    match v {
        Ok(s) => Ok(s.clone()),
        Err(e) => Err(*e),
    }
}

// ------------------------------------------------------------------
// The pipeline's staged resources
// ------------------------------------------------------------------

/// The path of the staged image file for the request begun at clock reading
/// `m`, under temp directory `dir`.
pub open spec fn image_path_view(dir: Seq<char>, m: u64) -> Seq<char> {
    joined_path_seq(dir, temp_name_seq("agentype-ocr"@, m, "png"@))
}

/// The path of the staged macOS helper script for the request begun at clock
/// reading `m`, under temp directory `dir`.
pub open spec fn script_path_view(dir: Seq<char>, m: u64) -> Seq<char> {
    joined_path_seq(dir, temp_name_seq("agentype-ocr"@, m, "swift"@))
}

/// Law: within one request, the staged image and the staged helper script
/// never share a path — the nested helper-script resource lives and dies
/// independently of the image file.
pub proof fn lemma_image_and_script_paths_differ(dir: Seq<char>, m: u64)
    ensures
        image_path_view(dir, m) != script_path_view(dir, m),
{
    reveal_strlit("png");
    reveal_strlit("swift");
    assert(image_path_view(dir, m).len() != script_path_view(dir, m).len());
}

/// Law: requests begun at distinct clock readings stage their images at
/// distinct paths — concurrent requests a millisecond apart never share a
/// temp file.
pub proof fn lemma_staged_image_paths_unique(dir: Seq<char>, m1: u64, m2: u64)
    requires
        m1 != m2,
    ensures
        image_path_view(dir, m1) != image_path_view(dir, m2),
{
    lemma_temp_names_unique("agentype-ocr"@, m1, m2, "png"@);
    let n1 = temp_name_seq("agentype-ocr"@, m1, "png"@);
    let n2 = temp_name_seq("agentype-ocr"@, m2, "png"@);
    let head = dir + "/"@;
    if image_path_view(dir, m1) == image_path_view(dir, m2) {
        assert(image_path_view(dir, m1) == head + n1);
        assert(image_path_view(dir, m2) == head + n2);
        assert(n1.len() == n2.len());
        assert forall|i: int| 0 <= i < n1.len() implies n1[i] == n2[i] by {
            assert(image_path_view(dir, m1)[head.len() + i] == n1[i]);
            assert(image_path_view(dir, m2)[head.len() + i] == n2[i]);
        }
        assert(n1 =~= n2);
    }
}

// ------------------------------------------------------------------
// The pipeline state machine
// ------------------------------------------------------------------

/// Where one OCR request stands: which outside work it awaits word of.
pub enum OcrPhase {
    /// Nothing has happened yet.
    Init,
    /// The decoded image bytes were handed out for staging.
    AwaitImageStage { image_path: String, millis: u64 },
    /// The macOS helper script was handed out for staging.
    AwaitScriptStage { image_path: String, script_path: String },
    /// The engine invocation was handed out to run.
    AwaitEngine { image_path: String, script_path: Option<String> },
    /// The verdict is in; the helper script's removal was requested.
    AwaitScriptDiscard { image_path: String, verdict: Result<String, ErrorKind> },
    /// The verdict is in; the staged image's removal was requested.
    AwaitImageDiscard { verdict: Result<String, ErrorKind> },
    /// The request is over.
    Done { verdict: Result<String, ErrorKind> },
}

/// The outside work one step of the pipeline asks the host program to do
/// before reporting back.
pub enum OcrAction {
    /// Write `bytes` to the file at `path`.
    StageImage { path: String, bytes: Vec<u8> },
    /// Write `text` to the file at `path`.
    StageScript { path: String, text: String },
    /// Spawn the invocation, wait, and capture its outcome.
    RunEngine { invocation: Invocation },
    /// Best-effort: delete the file at `path`; report a failure, never escalate it.
    DiscardScript { path: String },
    /// Best-effort: delete the file at `path`; report a failure, never escalate it.
    DiscardImage { path: String },
    /// The request is over with this verdict; nothing remains staged.
    Finish { verdict: Result<String, ErrorKind> },
}

/// What the host program observed of the outside work it was asked to do.
pub enum OcrEvent {
    /// The request begins; `now_millis` is the clock's milliseconds since the
    /// epoch, `None` where the clock was unusable.
    Begin { now_millis: Option<u64> },
    /// Whether writing the staged image succeeded.
    ImageStaged { ok: bool },
    /// Whether writing the helper script succeeded.
    ScriptStaged { ok: bool },
    /// The outcome of the engine invocation.
    EngineDone { outcome: InvokeOutcome },
    /// Whether deleting the helper script succeeded (best-effort either way).
    ScriptDiscarded { ok: bool },
    /// Whether deleting the staged image succeeded (best-effort either way).
    ImageDiscarded { ok: bool },
}

/// One OCR request: base64 input, the target's engine, staged temp files,
/// guaranteed discard requests on every path, one verdict. Each request owns
/// its own resources; no two requests share state.
pub struct OcrFlow {
    pub target: PlatformTarget,
    pub temp_dir: String,
    pub image_base64: String,
    pub phase: OcrPhase,
}

/// The step that ends a request: the one `Finish` action, and the `Done`
/// phase, both carrying the verdict.
pub open spec fn finish_step(
    post: OcrFlow,
    action: OcrAction,
    verdict: Result<Seq<char>, ErrorKind>,
) -> bool {
    &&& action matches OcrAction::Finish { verdict: av } && verdict_view(av) == verdict
    &&& post.phase matches OcrPhase::Done { verdict: pv } && verdict_view(pv) == verdict
}

/// The pipeline's whole behaviour, one step at a time: what each phase does
/// with the event it awaits, which action it hands out, and where it stands
/// afterwards.
pub open spec fn transition(
    pre: OcrFlow,
    event: OcrEvent,
    post: OcrFlow,
    action: OcrAction,
) -> bool {
    &&& post.target == pre.target
    &&& post.temp_dir@ == pre.temp_dir@
    &&& post.image_base64@ == pre.image_base64@
    &&& match (pre.phase, event) {
        (OcrPhase::Init, OcrEvent::Begin { now_millis }) => {
            if pre.target is Other {
                finish_step(post, action, Err(ErrorKind::UnsupportedPlatform))
            } else {
                match b64_decode_of(pre.image_base64@) {
                    Option::None => finish_step(post, action, Err(ErrorKind::InvalidEncoding)),
                    Option::Some(bytes) => match now_millis {
                        Option::None => finish_step(post, action, Err(ErrorKind::TimeError)),
                        Option::Some(m) => {
                            &&& action matches OcrAction::StageImage { path, bytes: b }
                                && path@ == image_path_view(pre.temp_dir@, m) && b@ == bytes
                            &&& post.phase matches OcrPhase::AwaitImageStage { image_path, millis }
                                && image_path@ == image_path_view(pre.temp_dir@, m) && millis == m
                        },
                    },
                }
            }
        },
        (OcrPhase::AwaitImageStage { image_path, millis }, OcrEvent::ImageStaged { ok }) => {
            if !ok {
                finish_step(post, action, Err(ErrorKind::IoError))
            } else if pre.target is Windows {
                &&& action matches OcrAction::RunEngine { invocation }
                    && is_windows_ocr_invocation(invocation, image_path@)
                &&& post.phase matches OcrPhase::AwaitEngine { image_path: ip, script_path }
                    && ip@ == image_path@ && script_path is None
            } else {
                &&& action matches OcrAction::StageScript { path, text }
                    && path@ == script_path_view(pre.temp_dir@, millis)
                    && text@ == macos_ocr_script_view()
                &&& post.phase matches OcrPhase::AwaitScriptStage { image_path: ip, script_path }
                    && ip@ == image_path@
                    && script_path@ == script_path_view(pre.temp_dir@, millis)
            }
        },
        (OcrPhase::AwaitScriptStage { image_path, script_path }, OcrEvent::ScriptStaged { ok }) => {
            if ok {
                &&& action matches OcrAction::RunEngine { invocation }
                    && is_macos_ocr_invocation(invocation, script_path@, image_path@)
                &&& post.phase matches OcrPhase::AwaitEngine { image_path: ip, script_path: sp }
                    && ip@ == image_path@ && (sp matches Some(s) && s@ == script_path@)
            } else {
                &&& action matches OcrAction::DiscardImage { path } && path@ == image_path@
                &&& post.phase matches OcrPhase::AwaitImageDiscard { verdict }
                    && verdict_view(verdict) == Err::<Seq<char>, ErrorKind>(ErrorKind::IoError)
            }
        },
        (OcrPhase::AwaitEngine { image_path, script_path }, OcrEvent::EngineDone { outcome }) => {
            match script_path {
                Option::Some(sp) => {
                    &&& action matches OcrAction::DiscardScript { path } && path@ == sp@
                    &&& post.phase matches OcrPhase::AwaitScriptDiscard { image_path: ip, verdict }
                        && ip@ == image_path@ && verdict_view(verdict) == ocr_text_verdict(outcome)
                },
                Option::None => {
                    &&& action matches OcrAction::DiscardImage { path } && path@ == image_path@
                    &&& post.phase matches OcrPhase::AwaitImageDiscard { verdict }
                        && verdict_view(verdict) == ocr_text_verdict(outcome)
                },
            }
        },
        (
            OcrPhase::AwaitScriptDiscard { image_path, verdict },
            OcrEvent::ScriptDiscarded { .. },
        ) => {
            &&& action matches OcrAction::DiscardImage { path } && path@ == image_path@
            &&& post.phase matches OcrPhase::AwaitImageDiscard { verdict: v }
                && verdict_view(v) == verdict_view(verdict)
        },
        (OcrPhase::AwaitImageDiscard { verdict }, OcrEvent::ImageDiscarded { .. }) => {
            finish_step(post, action, verdict_view(verdict))
        },
        _ => false,
    }
}

impl OcrFlow {
    /// The phase always fits the target: an unsupported target never leaves
    /// `Init` but for `Done`, and the helper script exists exactly on macOS.
    pub open spec fn wf(self) -> bool {
        &&& (self.target is Other ==> (self.phase is Init || self.phase is Done))
        &&& (self.phase matches OcrPhase::AwaitScriptStage { .. } ==> self.target is MacOs)
        &&& (self.phase matches OcrPhase::AwaitEngine { script_path, .. } ==> (script_path is Some
            <==> self.target is MacOs))
        &&& (self.phase matches OcrPhase::AwaitScriptDiscard { .. } ==> self.target is MacOs)
    }

    /// Which event the pipeline awaits; a finished request awaits none.
    pub open spec fn accepts(self, event: OcrEvent) -> bool {
        match self.phase {
            OcrPhase::Init => event is Begin,
            OcrPhase::AwaitImageStage { .. } => event is ImageStaged,
            OcrPhase::AwaitScriptStage { .. } => event is ScriptStaged,
            OcrPhase::AwaitEngine { .. } => event is EngineDone,
            OcrPhase::AwaitScriptDiscard { .. } => event is ScriptDiscarded,
            OcrPhase::AwaitImageDiscard { .. } => event is ImageDiscarded,
            OcrPhase::Done { .. } => false,
        }
    }

    /// A fresh OCR request on `image_base64`, for `target`, staging its temp
    /// files under `temp_dir`.
    pub fn new(target: PlatformTarget, temp_dir: String, image_base64: String) -> (r: OcrFlow)
        ensures
            r.wf(),
            r.target == target,
            r.temp_dir@ == temp_dir@,
            r.image_base64@ == image_base64@,
            r.phase is Init,
    {
        OcrFlow { target, temp_dir, image_base64, phase: OcrPhase::Init }
    }

    /// Whether `event` is the one the pipeline awaits — the host program's
    /// guard before each `step` call.
    pub fn accepts_event(&self, event: &OcrEvent) -> (r: bool)
        ensures
            r == self.accepts(*event),
    {
        match (&self.phase, event) {
            (OcrPhase::Init, OcrEvent::Begin { .. }) => true,
            (OcrPhase::AwaitImageStage { .. }, OcrEvent::ImageStaged { .. }) => true,
            (OcrPhase::AwaitScriptStage { .. }, OcrEvent::ScriptStaged { .. }) => true,
            (OcrPhase::AwaitEngine { .. }, OcrEvent::EngineDone { .. }) => true,
            (OcrPhase::AwaitScriptDiscard { .. }, OcrEvent::ScriptDiscarded { .. }) => true,
            (OcrPhase::AwaitImageDiscard { .. }, OcrEvent::ImageDiscarded { .. }) => true,
            _ => false,
        }
    }

    /// One step of the pipeline: takes the awaited event, returns the request
    /// as it now stands and the next piece of outside work.
    pub fn step(self, event: OcrEvent) -> (r: (OcrFlow, OcrAction))
        requires
            self.wf(),
            self.accepts(event),
        ensures
            r.0.wf(),
            transition(self, event, r.0, r.1),
    {
        let OcrFlow { target, temp_dir, image_base64, phase } = self;
        match (phase, event) {
            (OcrPhase::Init, OcrEvent::Begin { now_millis }) => {
                if let PlatformTarget::Other = target {
                    fail_flow(target, temp_dir, image_base64, ErrorKind::UnsupportedPlatform)
                } else {
                    match decode_base64(image_base64.as_str()) {
                        None => fail_flow(
                            target,
                            temp_dir,
                            image_base64,
                            ErrorKind::InvalidEncoding,
                        ),
                        Some(bytes) => match now_millis {
                            None => fail_flow(target, temp_dir, image_base64, ErrorKind::TimeError),
                            Some(m) => {
                                let path = match allocate(
                                    temp_dir.as_str(),
                                    "agentype-ocr",
                                    Some(m),
                                    "png",
                                ) {
                                    Ok(path) => path,
                                    Err(_) => unreached(),
                                };
                                let flow = OcrFlow {
                                    target,
                                    temp_dir,
                                    image_base64,
                                    phase: OcrPhase::AwaitImageStage {
                                        image_path: path.clone(),
                                        millis: m,
                                    },
                                };
                                (flow, OcrAction::StageImage { path, bytes })
                            },
                        },
                    }
                }
            },
            (OcrPhase::AwaitImageStage { image_path, millis }, OcrEvent::ImageStaged { ok }) => {
                if !ok {
                    fail_flow(target, temp_dir, image_base64, ErrorKind::IoError)
                } else {
                    match target {
                        PlatformTarget::Windows => {
                            let invocation = match perform_system_ocr(
                                PlatformTarget::Windows,
                                image_path.as_str(),
                                None,
                            ) {
                                Ok(invocation) => invocation,
                                Err(_) => unreached(),
                            };
                            let flow = OcrFlow {
                                target,
                                temp_dir,
                                image_base64,
                                phase: OcrPhase::AwaitEngine { image_path, script_path: None },
                            };
                            (flow, OcrAction::RunEngine { invocation })
                        },
                        PlatformTarget::MacOs => {
                            let script_path = match allocate(
                                temp_dir.as_str(),
                                "agentype-ocr",
                                Some(millis),
                                "swift",
                            ) {
                                Ok(script_path) => script_path,
                                Err(_) => unreached(),
                            };
                            let flow = OcrFlow {
                                target,
                                temp_dir,
                                image_base64,
                                phase: OcrPhase::AwaitScriptStage {
                                    image_path,
                                    script_path: script_path.clone(),
                                },
                            };
                            (
                                flow,
                                OcrAction::StageScript {
                                    path: script_path,
                                    text: macos_ocr_script().to_owned(),
                                },
                            )
                        },
                        PlatformTarget::Other => unreached(),
                    }
                }
            },
            (
                OcrPhase::AwaitScriptStage { image_path, script_path },
                OcrEvent::ScriptStaged { ok },
            ) => {
                if ok {
                    let invocation = match perform_system_ocr(
                        PlatformTarget::MacOs,
                        image_path.as_str(),
                        Some(script_path.as_str()),
                    ) {
                        Ok(invocation) => invocation,
                        Err(_) => unreached(),
                    };
                    let flow = OcrFlow {
                        target,
                        temp_dir,
                        image_base64,
                        phase: OcrPhase::AwaitEngine {
                            image_path,
                            script_path: Some(script_path),
                        },
                    };
                    (flow, OcrAction::RunEngine { invocation })
                } else {
                    let flow = OcrFlow {
                        target,
                        temp_dir,
                        image_base64,
                        phase: OcrPhase::AwaitImageDiscard { verdict: Err(ErrorKind::IoError) },
                    };
                    (flow, OcrAction::DiscardImage { path: image_path })
                }
            },
            (
                OcrPhase::AwaitEngine { image_path, script_path },
                OcrEvent::EngineDone { outcome },
            ) => {
                let verdict = ocr_engine_verdict(outcome);
                match script_path {
                    Some(sp) => {
                        let flow = OcrFlow {
                            target,
                            temp_dir,
                            image_base64,
                            phase: OcrPhase::AwaitScriptDiscard { image_path, verdict },
                        };
                        (flow, OcrAction::DiscardScript { path: sp })
                    },
                    None => {
                        let flow = OcrFlow {
                            target,
                            temp_dir,
                            image_base64,
                            phase: OcrPhase::AwaitImageDiscard { verdict },
                        };
                        (flow, OcrAction::DiscardImage { path: image_path })
                    },
                }
            },
            (
                OcrPhase::AwaitScriptDiscard { image_path, verdict },
                OcrEvent::ScriptDiscarded { .. },
            ) => {
                let flow = OcrFlow {
                    target,
                    temp_dir,
                    image_base64,
                    phase: OcrPhase::AwaitImageDiscard { verdict },
                };
                (flow, OcrAction::DiscardImage { path: image_path })
            },
            (OcrPhase::AwaitImageDiscard { verdict }, OcrEvent::ImageDiscarded { .. }) => {
                let flow = OcrFlow {
                    target,
                    temp_dir,
                    image_base64,
                    phase: OcrPhase::Done { verdict: clone_verdict(&verdict) },
                };
                (flow, OcrAction::Finish { verdict })
            },
            _ => unreached(),
        }
    }
}

// ------------------------------------------------------------------
// Laws of the pipeline
// ------------------------------------------------------------------

/// Whether a phase has the staged image on disk with its discard not yet
/// requested, and at which path.
pub open spec fn image_staged(phase: OcrPhase) -> bool {
    match phase {
        OcrPhase::AwaitScriptStage { .. } => true,
        OcrPhase::AwaitEngine { .. } => true,
        OcrPhase::AwaitScriptDiscard { .. } => true,
        _ => false,
    }
}

/// The staged image's path, in the phases where it is staged.
pub open spec fn staged_image_path(phase: OcrPhase) -> Seq<char> {
    match phase {
        OcrPhase::AwaitScriptStage { image_path, .. } => image_path@,
        OcrPhase::AwaitEngine { image_path, .. } => image_path@,
        OcrPhase::AwaitScriptDiscard { image_path, .. } => image_path@,
        _ => Seq::empty(),
    }
}

/// Law: every valid base64 input passes the pipeline's decode step — it is
/// never answered with `InvalidEncoding` — and every malformed input ends the
/// request at once with `InvalidEncoding`, staging nothing.
pub proof fn lemma_decode_gate(pre: OcrFlow, event: OcrEvent, post: OcrFlow, action: OcrAction)
    requires
        transition(pre, event, post, action),
        pre.phase is Init,
        !(pre.target is Other),
    ensures
        b64_decode_of(pre.image_base64@) is None ==> (action matches OcrAction::Finish { verdict }
            && verdict == Err::<String, ErrorKind>(ErrorKind::InvalidEncoding) && post.phase
            is Done),
        b64_decode_of(pre.image_base64@) matches Some(bytes) ==> ((action
            matches OcrAction::StageImage { bytes: b, .. } && b@ == bytes) || (action
            matches OcrAction::Finish { verdict } && verdict == Err::<String, ErrorKind>(
            ErrorKind::TimeError,
        ))),
{
}

/// Law: on an unsupported platform target the pipeline answers
/// `UnsupportedPlatform` at once and asks for no file or process work — from
/// `Init` it goes straight to `Done`, and no later phase is ever reachable.
pub proof fn lemma_unsupported_platform(
    pre: OcrFlow,
    event: OcrEvent,
    post: OcrFlow,
    action: OcrAction,
)
    requires
        transition(pre, event, post, action),
        pre.wf(),
        pre.target is Other,
    ensures
        action matches OcrAction::Finish { verdict } && verdict == Err::<String, ErrorKind>(
            ErrorKind::UnsupportedPlatform,
        ),
        post.phase is Done,
{
}

/// Law (cleanup discipline): once the image is staged, every step either keeps
/// tracking it at the same path or requests its discard; and a request can
/// only finish from a phase where the image was never staged, its staging
/// failed with nothing written, or its discard has been requested.
pub proof fn lemma_cleanup_discipline(
    pre: OcrFlow,
    event: OcrEvent,
    post: OcrFlow,
    action: OcrAction,
)
    requires
        transition(pre, event, post, action),
    ensures
        image_staged(pre.phase) ==> ((image_staged(post.phase) && staged_image_path(post.phase)
            == staged_image_path(pre.phase)) || ((action matches OcrAction::DiscardImage { path }
            && path@ == staged_image_path(pre.phase)) && post.phase
            matches OcrPhase::AwaitImageDiscard { .. })),
        action matches OcrAction::Finish { .. } ==> (pre.phase is Init || pre.phase
            matches OcrPhase::AwaitImageStage { .. } || pre.phase
            matches OcrPhase::AwaitImageDiscard { .. }),
        (pre.phase matches OcrPhase::AwaitImageStage { .. } && action
            matches OcrAction::Finish { .. }) ==> event matches OcrEvent::ImageStaged {
            ok: false,
        },
{
}

} // verus!
