//! OS-capability operations — simulated keyboard text insertion, interactive
//! screenshot capture, and optical character recognition (OCR) on an image —
//! normalized behind one uniform result contract.
//!
//! The library holds every decision: platform dispatch, temp-resource naming,
//! the OCR pipeline's state machine, and the classification of native-tool
//! outcomes. The host program performs the file writes, deletions and process
//! spawns that the pipeline asks for, and hands the observed outcomes back.

pub mod errors;
pub mod invoke;
pub mod ocr;
pub mod platform;
pub mod temp;
