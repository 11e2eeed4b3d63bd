use vstd::prelude::*;

verus! {

use vstd::string::StringExecFns;
use crate::errors::ErrorKind;

/// The platform a build is made for. Selected once per build and handed to the
/// library by the host program; it drives which native mechanism each logical
/// operation resolves to. A target outside the closed set of implemented ones
/// is `Other`, where every operation fails with `UnsupportedPlatform` and asks
/// for no file or process work.
#[derive(Clone, Copy, Debug, PartialEq, Eq, Structural)]
pub enum PlatformTarget {
    MacOs,
    Windows,
    Other,
}

impl PlatformTarget {
    /// Whether any native mechanism is bound on this target.
    pub open spec fn is_supported(self) -> bool {
        !(self is Other)
    }
}

/// One native program invocation: the program name and its arguments, in order.
/// The host program spawns it, waits, and reports the outcome back.
pub struct Invocation {
    pub program: String,
    pub args: Vec<String>,
}

// ------------------------------------------------------------------
// Screenshot Trigger dispatch
// ------------------------------------------------------------------

/// The interactive region capture of the macOS screenshot utility, sent to the
/// clipboard.
pub open spec fn is_macos_screenshot_invocation(inv: Invocation) -> bool {
    &&& inv.program@ == "screencapture"@
    &&& inv.args@.len() == 2
    &&& inv.args@[0]@ == "-i"@
    &&& inv.args@[1]@ == "-c"@
}

/// The Windows screen-clipping shell invocation.
pub open spec fn is_windows_screenshot_invocation(inv: Invocation) -> bool {
    &&& inv.program@ == "explorer.exe"@
    &&& inv.args@.len() == 1
    &&& inv.args@[0]@ == "ms-screenclip:"@
}

/// Screenshot dispatch: the native interactive capture invocation bound to
/// `target`, or `UnsupportedPlatform` where none is.
pub fn trigger_screenshot(target: PlatformTarget) -> (r: Result<Invocation, ErrorKind>)
    ensures
        target is MacOs ==> (r matches Ok(inv) && is_macos_screenshot_invocation(inv)),
        target is Windows ==> (r matches Ok(inv) && is_windows_screenshot_invocation(inv)),
        target is Other ==> r == Err::<Invocation, ErrorKind>(ErrorKind::UnsupportedPlatform),
{
    match target {
        PlatformTarget::MacOs => {
            let mut args: Vec<String> = Vec::new();
            args.push("-i".to_owned());
            args.push("-c".to_owned());
            Ok(Invocation { program: "screencapture".to_owned(), args })
        },
        PlatformTarget::Windows => {
            let mut args: Vec<String> = Vec::new();
            args.push("ms-screenclip:".to_owned());
            Ok(Invocation { program: "explorer.exe".to_owned(), args })
        },
        PlatformTarget::Other => Err(ErrorKind::UnsupportedPlatform),
    }
}

// ------------------------------------------------------------------
// OCR engine dispatch
// ------------------------------------------------------------------

/// The program text of the short-lived macOS recognition helper: it reads the
/// image named by its first argument, runs text recognition over it, and
/// prints the recognized lines, one per detected text region.
pub open spec fn macos_ocr_script_view() -> Seq<char> {
    (r#"
import Vision
import AppKit
import Foundation

let imagePath = CommandLine.arguments[1]
guard let image = NSImage(contentsOfFile: imagePath) else {
  exit(1)
}
var rect = CGRect(origin: .zero, size: image.size)
guard let cgImage = image.cgImage(forProposedRect: &rect, context: nil, hints: nil) else {
  exit(1)
}

let request = VNRecognizeTextRequest()
request.recognitionLevel = .accurate
request.usesLanguageCorrection = true

let handler = VNImageRequestHandler(cgImage: cgImage, options: [:])
try handler.perform([request])

let results = request.results as? [VNRecognizedTextObservation] ?? []
let text = results.compactMap { $0.topCandidates(1).first?.string }.joined(separator: "\n")
print(text)
"#)@
}

/// The macOS recognition helper's program text, for staging to a temp file.
pub fn macos_ocr_script() -> (r: &'static str)
    ensures
        r@ == macos_ocr_script_view(),
{
    r#"
import Vision
import AppKit
import Foundation

let imagePath = CommandLine.arguments[1]
guard let image = NSImage(contentsOfFile: imagePath) else {
  exit(1)
}
var rect = CGRect(origin: .zero, size: image.size)
guard let cgImage = image.cgImage(forProposedRect: &rect, context: nil, hints: nil) else {
  exit(1)
}

let request = VNRecognizeTextRequest()
request.recognitionLevel = .accurate
request.usesLanguageCorrection = true

let handler = VNImageRequestHandler(cgImage: cgImage, options: [:])
try handler.perform([request])

let results = request.results as? [VNRecognizedTextObservation] ?? []
let text = results.compactMap { $0.topCandidates(1).first?.string }.joined(separator: "\n")
print(text)
"#
}

/// The shell-hosted Windows recognition program text: it reads the image named
/// by its first argument, runs the system recognition engine over it, and
/// prints the recognized text.
pub open spec fn windows_ocr_script_view() -> Seq<char> {
    (r#"
$ErrorActionPreference = 'Stop'
$path = $args[0]
Add-Type -AssemblyName System.Runtime.WindowsRuntime
[Windows.Graphics.Imaging.BitmapDecoder,Windows.Graphics.Imaging,ContentType=WindowsRuntime] | Out-Null
[Windows.Media.Ocr.OcrEngine,Windows.Media.Ocr,ContentType=WindowsRuntime] | Out-Null
[Windows.Storage.Streams.InMemoryRandomAccessStream,Windows.Storage.Streams,ContentType=WindowsRuntime] | Out-Null
[Windows.Storage.Streams.DataWriter,Windows.Storage.Streams,ContentType=WindowsRuntime] | Out-Null

$bytes = [System.IO.File]::ReadAllBytes($path)
$stream = [Windows.Storage.Streams.InMemoryRandomAccessStream]::new()
$writer = [Windows.Storage.Streams.DataWriter]::new($stream)
$writer.WriteBytes($bytes)
$writer.StoreAsync().GetAwaiter().GetResult() | Out-Null
$stream.Seek(0)

$decoder = [Windows.Graphics.Imaging.BitmapDecoder]::CreateAsync($stream).GetAwaiter().GetResult()
$softwareBitmap = $decoder.GetSoftwareBitmapAsync().GetAwaiter().GetResult()
$engine = [Windows.Media.Ocr.OcrEngine]::TryCreateFromUserProfileLanguages()
if ($engine -eq $null) {
  throw 'OCR engine unavailable'
}
$result = $engine.RecognizeAsync($softwareBitmap).GetAwaiter().GetResult()
$result.Text
"#)@
}

/// The Windows recognition program text, passed inline to the shell host.
pub fn windows_ocr_script() -> (r: &'static str)
    ensures
        r@ == windows_ocr_script_view(),
{
    r#"
$ErrorActionPreference = 'Stop'
$path = $args[0]
Add-Type -AssemblyName System.Runtime.WindowsRuntime
[Windows.Graphics.Imaging.BitmapDecoder,Windows.Graphics.Imaging,ContentType=WindowsRuntime] | Out-Null
[Windows.Media.Ocr.OcrEngine,Windows.Media.Ocr,ContentType=WindowsRuntime] | Out-Null
[Windows.Storage.Streams.InMemoryRandomAccessStream,Windows.Storage.Streams,ContentType=WindowsRuntime] | Out-Null
[Windows.Storage.Streams.DataWriter,Windows.Storage.Streams,ContentType=WindowsRuntime] | Out-Null

$bytes = [System.IO.File]::ReadAllBytes($path)
$stream = [Windows.Storage.Streams.InMemoryRandomAccessStream]::new()
$writer = [Windows.Storage.Streams.DataWriter]::new($stream)
$writer.WriteBytes($bytes)
$writer.StoreAsync().GetAwaiter().GetResult() | Out-Null
$stream.Seek(0)

$decoder = [Windows.Graphics.Imaging.BitmapDecoder]::CreateAsync($stream).GetAwaiter().GetResult()
$softwareBitmap = $decoder.GetSoftwareBitmapAsync().GetAwaiter().GetResult()
$engine = [Windows.Media.Ocr.OcrEngine]::TryCreateFromUserProfileLanguages()
if ($engine -eq $null) {
  throw 'OCR engine unavailable'
}
$result = $engine.RecognizeAsync($softwareBitmap).GetAwaiter().GetResult()
$result.Text
"#
}

/// The macOS recognition invocation: the interpreter run on the staged helper
/// script, handed the staged image path.
pub open spec fn is_macos_ocr_invocation(
    inv: Invocation,
    script_path: Seq<char>,
    image_path: Seq<char>,
) -> bool {
    &&& inv.program@ == "swift"@
    &&& inv.args@.len() == 2
    &&& inv.args@[0]@ == script_path
    &&& inv.args@[1]@ == image_path
}

/// The Windows recognition invocation: the shell host run on the inline
/// recognition program, handed the staged image path.
pub open spec fn is_windows_ocr_invocation(inv: Invocation, image_path: Seq<char>) -> bool {
    &&& inv.program@ == "powershell"@
    &&& inv.args@.len() == 4
    &&& inv.args@[0]@ == "-NoProfile"@
    &&& inv.args@[1]@ == "-Command"@
    &&& inv.args@[2]@ == windows_ocr_script_view()
    &&& inv.args@[3]@ == image_path
}

/// OCR dispatch: the native recognition invocation bound to `target`, over the
/// staged image at `image_path` (and, on macOS, the staged helper script at
/// `script_path`), or `UnsupportedPlatform` where none is.
pub fn perform_system_ocr(
    target: PlatformTarget,
    image_path: &str,
    script_path: Option<&str>,
) -> (r: Result<Invocation, ErrorKind>)
    requires
        target is MacOs ==> script_path is Some,
    ensures
        target is MacOs ==> (script_path matches Some(sp) && r matches Ok(inv)
            && is_macos_ocr_invocation(inv, sp@, image_path@)),
        target is Windows ==> (r matches Ok(inv) && is_windows_ocr_invocation(inv, image_path@)),
        target is Other ==> r == Err::<Invocation, ErrorKind>(ErrorKind::UnsupportedPlatform),
{
    match target {
        PlatformTarget::MacOs => {
            let sp = match script_path {
                Some(sp) => sp,
                None => "",
            };
            let mut args: Vec<String> = Vec::new();
            args.push(sp.to_owned());
            args.push(image_path.to_owned());
            Ok(Invocation { program: "swift".to_owned(), args })
        },
        PlatformTarget::Windows => {
            let mut args: Vec<String> = Vec::new();
            args.push("-NoProfile".to_owned());
            args.push("-Command".to_owned());
            args.push(windows_ocr_script().to_owned());
            args.push(image_path.to_owned());
            Ok(Invocation { program: "powershell".to_owned(), args })
        },
        PlatformTarget::Other => Err(ErrorKind::UnsupportedPlatform),
    }
}

// ------------------------------------------------------------------
// Text insertion dispatch
// ------------------------------------------------------------------

/// A request to type `text` into whatever holds input focus, handed to the
/// host program's input simulator. Simulation is fire-and-forget: the library
/// does not verify that the text landed anywhere.
pub struct TextInsertion {
    pub text: String,
}

/// Text-insertion dispatch: on a supported target, the request to hand to the
/// input simulator, carrying the text unchanged; `UnsupportedPlatform`
/// otherwise.
pub fn insert_text(target: PlatformTarget, text: String) -> (r: Result<TextInsertion, ErrorKind>)
    ensures
        target.is_supported() ==> (r matches Ok(req) && req.text@ == text@),
        !target.is_supported() ==> r == Err::<TextInsertion, ErrorKind>(
            ErrorKind::UnsupportedPlatform,
        ),
{
    match target {
        PlatformTarget::Other => Err(ErrorKind::UnsupportedPlatform),
        _ => Ok(TextInsertion { text }),
    }
}

} // verus!
