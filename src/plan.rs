use vstd::prelude::*;

verus! {

/// The family of targets that the shell is built for.
#[derive(Clone, Copy, Debug, PartialEq, Eq, Structural)]
pub enum Platform {
    Desktop,
    Mobile,
}

/// Verbosity threshold of the logging plugin, from silent to most verbose.
#[derive(Clone, Copy, Debug, PartialEq, Eq, Structural)]
pub enum LogLevel {
    Off,
    Error,
    Warn,
    Info,
    Debug,
    Trace,
}

/// A plugin attached to the application, with the options it is built with.
#[derive(Clone, Copy, Debug)]
pub enum Plugin {
    /// Process control (exit, restart).
    Process,
    /// Native dialogs.
    Dialog,
    /// Logging, at the given threshold.
    Log { level: LogLevel },
    /// Auto-updater, checking update signatures against `pubkey` (base64).
    Updater { pubkey: &'static str },
}

/// The plugins registered on the application builder, in order.
pub open spec fn builder_plugins_spec() -> Seq<Plugin> {
    seq![Plugin::Process, Plugin::Dialog, Plugin::Log { level: LogLevel::Info }]
}

/// Plugins registered on the application builder before it starts, in the
/// order of registration: process control, dialogs, then logging at `Info`.
pub fn builder_plugins() -> (r: Vec<Plugin>)
    ensures
        r@ == builder_plugins_spec(),
{
    let r = vec![Plugin::Process, Plugin::Dialog, Plugin::Log { level: LogLevel::Info }];
    assert(r@ =~= builder_plugins_spec());
    r
}

} // verus!
