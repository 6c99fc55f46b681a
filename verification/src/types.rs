//! The closed error taxonomy and the engine's option keys.

use vstd::prelude::*;

verus! {

/// One failure kind per failing operation.  Every non-success code returned
/// by the engine is converted into the matching variant at the point of the
/// call; only the boolean query operations normalise failure to `false`
/// instead of reporting it.
#[derive(Clone, Copy, Debug, PartialEq, Eq, Structural)]
pub enum Error {
    /// The engine's dynamic library could not be resolved or opened.
    LibraryLoadFailed,
    /// The engine refused to load its data-resource bundle.
    ResourceLoadFailed,
    /// The engine returned a null handle on instance creation.
    CreateFailed,
    /// The engine refused the connect request.
    ConnectFailed,
    /// The engine refused to append a task.
    TaskAppendFailed,
    /// The engine refused to update a task's parameters.
    TaskParamsSetFailed,
    /// The engine refused to start.
    StartFailed,
    /// The engine refused to stop.
    StopFailed,
    /// The engine refused the back-to-home request.
    BackToHomeFailed,
    /// The engine refused the click request.
    ClickFailed,
    /// The engine refused the screenshot request.
    CaptureFailed,
    /// The result did not fit a buffer even at the given hard ceiling,
    /// in bytes.
    ContentTooLarge(usize),
    /// The engine refused to set an instance option.
    SetInstanceOptionFailed,
    /// The engine refused to set a static option.
    SetStaticOptionFailed,
    /// A decoding failure, or exhaustion of the identifier growth loop.
    Unknown,
}

impl Error {
    /// A short human-readable description of the failure.
    pub fn message(&self) -> (r: &'static str)
        ensures
            r@ == error_text(*self),
    {
        match self {
            Error::LibraryLoadFailed => "library load failed",
            Error::ResourceLoadFailed => "resource load failed",
            Error::CreateFailed => "instance creation failed",
            Error::ConnectFailed => "connect failed",
            Error::TaskAppendFailed => "task append failed",
            Error::TaskParamsSetFailed => "task params set failed",
            Error::StartFailed => "start failed",
            Error::StopFailed => "stop failed",
            Error::BackToHomeFailed => "back to home failed",
            Error::ClickFailed => "click failed",
            Error::CaptureFailed => "screen capture failed",
            Error::ContentTooLarge(_) => "content too large",
            Error::SetInstanceOptionFailed => "instance option set failed",
            Error::SetStaticOptionFailed => "static option set failed",
            Error::Unknown => "unknown error",
        }
    }
}

/// The description text of each failure kind.
pub open spec fn error_text(e: Error) -> Seq<char> {
    match e {
        Error::LibraryLoadFailed => "library load failed"@,
        Error::ResourceLoadFailed => "resource load failed"@,
        Error::CreateFailed => "instance creation failed"@,
        Error::ConnectFailed => "connect failed"@,
        Error::TaskAppendFailed => "task append failed"@,
        Error::TaskParamsSetFailed => "task params set failed"@,
        Error::StartFailed => "start failed"@,
        Error::StopFailed => "stop failed"@,
        Error::BackToHomeFailed => "back to home failed"@,
        Error::ClickFailed => "click failed"@,
        Error::CaptureFailed => "screen capture failed"@,
        Error::ContentTooLarge(_) => "content too large"@,
        Error::SetInstanceOptionFailed => "instance option set failed"@,
        Error::SetStaticOptionFailed => "static option set failed"@,
        Error::Unknown => "unknown error"@,
    }
}

/// A process-wide engine toggle, set before any instance work.
#[derive(Clone, Copy, Debug, PartialEq, Eq, Structural)]
pub enum StaticOptionKey {
    /// No effect.
    Invalid,
    /// Run text recognition on the CPU.
    CpuOCR,
    /// Run text recognition on the GPU.
    GpuOCR,
}

impl StaticOptionKey {
    /// The fixed integer key the engine expects for this option.
    pub fn code(&self) -> (r: i32)
        ensures
            r as int == static_option_code(*self),
    {
        match self {
            StaticOptionKey::Invalid => 0,
            StaticOptionKey::CpuOCR => 1,
            StaticOptionKey::GpuOCR => 2,
        }
    }
}

/// The fixed integer key of each static option.
pub open spec fn static_option_code(k: StaticOptionKey) -> int {
    match k {
        StaticOptionKey::Invalid => 0,
        StaticOptionKey::CpuOCR => 1,
        StaticOptionKey::GpuOCR => 2,
    }
}

/// A per-instance engine toggle, each taking a string value.
#[derive(Clone, Copy, Debug, PartialEq, Eq, Structural)]
pub enum InstanceOptionKey {
    /// Deprecated; no effect.
    Invalid,
    /// Whether the minitouch input backend is enabled: `"1"` on, `"0"` off.
    MinitouchEnabled,
    /// The touch mode: `"minitouch"`, `"maatouch"` or `"adb"`.
    TouchMode,
    /// Whether to pause while deploying: `"1"` or `"0"`.
    DeploymentWithPause,
    /// Whether the lightweight adb client is used: `"0"` or `"1"`.
    AdbLiteEnabled,
    /// Whether the adb process is killed on exit: `"0"` or `"1"`.
    KillAdbOnExit,
}

impl InstanceOptionKey {
    /// The fixed integer key the engine expects for this option.
    pub fn code(&self) -> (r: i32)
        ensures
            r as int == instance_option_code(*self),
    {
        match self {
            InstanceOptionKey::Invalid => 0,
            InstanceOptionKey::MinitouchEnabled => 1,
            InstanceOptionKey::TouchMode => 2,
            InstanceOptionKey::DeploymentWithPause => 3,
            InstanceOptionKey::AdbLiteEnabled => 4,
            InstanceOptionKey::KillAdbOnExit => 5,
        }
    }
}

/// The fixed integer key of each instance option.
pub open spec fn instance_option_code(k: InstanceOptionKey) -> int {
    match k {
        InstanceOptionKey::Invalid => 0,
        InstanceOptionKey::MinitouchEnabled => 1,
        InstanceOptionKey::TouchMode => 2,
        InstanceOptionKey::DeploymentWithPause => 3,
        InstanceOptionKey::AdbLiteEnabled => 4,
        InstanceOptionKey::KillAdbOnExit => 5,
    }
}

} // verus!
