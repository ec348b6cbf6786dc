//! What the host application sees beside the lifecycle: the version string,
//! the form of log lines, and the bridge through which log lines reach the
//! host's callback.
//!
//! The bridge owns the handle of the host's virtual machine and the reference
//! to the registered callback object. It is generic in both and decides only
//! whether a line can be delivered; the call into the host is made by whoever
//! receives the delivery.

use vstd::prelude::*;
use vstd::string::*;

verus! {

/// Name of the callback method that takes a log line.
pub const CALLBACK_METHOD: &'static str = "onLogLine";

/// Type signature of the callback method: one string in, nothing out.
pub const CALLBACK_SIGNATURE: &'static str = "(Ljava/lang/String;)V";

/// The version string for a build whose package version is `version`.
pub open spec fn version_text(version: Seq<char>) -> Seq<char> {
    "Arti "@ + version + " (custom build with rustls)"@
}

/// The message of an error whose description is `detail`.
pub open spec fn error_text(detail: Seq<char>) -> Seq<char> {
    "ERROR: "@ + detail
}

/// The line that goes to the system log for `message`.
pub open spec fn system_log_text(message: Seq<char>) -> Seq<char> {
    "Arti: "@ + message
}

/// Builds the version string for a build whose package version is `version`.
pub fn version_string(version: &str) -> (text: String)
    ensures
        text@ == version_text(version@),
{
    let mut text = String::from_str("Arti ");
    text.append(version);
    text.append(" (custom build with rustls)");
    text
}

/// Builds the message of an error whose description is `detail`.
pub fn error_message(detail: &str) -> (text: String)
    ensures
        text@ == error_text(detail@),
{
    let mut text = String::from_str("ERROR: ");
    text.append(detail);
    text
}

/// Builds the line that goes to the system log for `message`.
pub fn system_log_line(message: &str) -> (text: String)
    ensures
        text@ == system_log_text(message@),
{
    let mut text = String::from_str("Arti: ");
    text.append(message);
    text
}

/// The bridge as a mathematical value.
pub struct BridgeView<V, K> {
    /// The virtual machine handle.
    pub vm: Option<V>,
    /// The registered callback.
    pub callback: Option<K>,
}

/// The bridge to the host's log callback.
#[derive(Debug)]
pub struct LogBridge<V, K> {
    vm: Option<V>,
    callback: Option<K>,
}

/// One call of the host's callback, ready to be made.
#[derive(Debug)]
pub struct Delivery<'a, V, K> {
    /// The virtual machine to attach the calling thread to.
    pub vm: &'a V,
    /// The object to call.
    pub callback: &'a K,
    /// The method to call on it.
    pub method: &'static str,
    /// The type signature of that method.
    pub signature: &'static str,
    /// The one argument.
    pub message: String,
}

impl<V, K> View for LogBridge<V, K> {
    type V = BridgeView<V, K>;

    closed spec fn view(&self) -> BridgeView<V, K> {
        BridgeView { vm: self.vm, callback: self.callback }
    }
}

impl<V, K> LogBridge<V, K> {
    /// A bridge with no virtual machine and no callback.
    pub fn new() -> (bridge: Self)
        ensures
            bridge@.vm is None,
            bridge@.callback is None,
    {
        LogBridge { vm: None, callback: None }
    }

    /// True while no virtual machine handle is cached.
    pub fn needs_vm(&self) -> (needed: bool)
        ensures
            needed == (self@.vm is None),
    {
        self.vm.is_none()
    }

    /// Caches the virtual machine handle. The first handle stays: where one
    /// is cached already, the one offered is dropped.
    pub fn cache_vm(&mut self, vm: V)
        ensures
            final(self)@.vm == (if old(self)@.vm is Some {
                old(self)@.vm
            } else {
                Some(vm)
            }),
            final(self)@.callback == old(self)@.callback,
    {
        if self.vm.is_none() {
            self.vm = Some(vm);
        }
    }

    /// Registers `callback` in place of any callback registered before.
    pub fn set_callback(&mut self, callback: K)
        ensures
            final(self)@.callback == Some(callback),
            final(self)@.vm == old(self)@.vm,
    {
        self.callback = Some(callback);
    }
}

/// Prepares the delivery of `message` to the host's callback. There is a
/// delivery exactly when both the virtual machine and a callback are known;
/// it names them, the method `onLogLine` with its signature, and the message
/// unchanged. Otherwise the message is dropped.
pub fn send_log_to_java<'a, V, K>(bridge: &'a LogBridge<V, K>, message: String) -> (delivery:
    Option<Delivery<'a, V, K>>)
    ensures
        delivery is Some <==> bridge@.vm is Some && bridge@.callback is Some,
        delivery matches Some(d) ==> {
            &&& bridge@.vm == Some(*d.vm)
            &&& bridge@.callback == Some(*d.callback)
            &&& d.method@ == CALLBACK_METHOD@
            &&& d.signature@ == CALLBACK_SIGNATURE@
            &&& d.message@ == message@
        },
{
    match (bridge.vm.as_ref(), bridge.callback.as_ref()) {
        (Some(vm), Some(callback)) => Some(
            Delivery {
                vm,
                callback,
                method: CALLBACK_METHOD,
                signature: CALLBACK_SIGNATURE,
                message,
            },
        ),
        _ => None,
    }
}

} // verus!
