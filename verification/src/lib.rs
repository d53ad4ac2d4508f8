//! Client for a WebLN provider, with the provider's work kept outside.
//!
//! [`JsWebLN`] holds the handle of a provider and starts calls on it. A call
//! says what to ask of the handle; whoever embeds the client asks, waits, and
//! hands the answer to the call, which turns it into what the caller across
//! the boundary sees.

pub mod call;
pub mod error;
pub mod get_info;
pub mod keysend;
pub mod send_payment;

use std::ops::Deref;
use vstd::prelude::*;
use crate::call::{CallView, EnableCall, GetInfoCall, IsEnabledCall, KeysendCall, SendPaymentCall};
use crate::error::{boundary_error, into_err, Error, JsError, JsErrorKind};
use crate::keysend::JsKeysendArgs;

verus! {

/// Calls `console_error_panic_hook::set_once`, which installs a panic hook
/// that reports a panic on the console. The first call installs the hook and
/// later calls do nothing. Nothing is claimed of it: it hands nothing back.
#[verifier::external_body]
fn set_panic_hook_once() {
    console_error_panic_hook::set_once();
}

/// Makes panics visible on the console from now on. To be called when the
/// module is loaded; calling it again does nothing, and a client can be
/// built and used without it.
pub fn start() {
    set_panic_hook_once();
}

/// A client of one provider, whose handle it holds for as long as it lives.
/// The model of a client is its handle.
#[derive(Debug)]
pub struct JsWebLN<H> {
    inner: H,
}

impl<H> View for JsWebLN<H> {
    type V = H;

    closed spec fn view(&self) -> H {
        self.inner
    }
}

impl<H> JsWebLN<H> {
    /// A client for the handle that was acquired, or, where none could be
    /// acquired, the failure as a `ConstructionError`.
    pub fn new(acquired: Result<H, Error>) -> (client: Result<Self, JsError>)
        ensures
            match acquired {
                Ok(handle) => client is Ok && client->Ok_0@ == handle,
                Err(error) => client is Err && client->Err_0@ == boundary_error(
                    JsErrorKind::ConstructionError,
                    error@,
                ),
            },
    {
        match acquired {
            Ok(inner) => Ok(Self { inner }),
            Err(error) => Err(into_err(JsErrorKind::ConstructionError, error)),
        }
    }

    /// Starts the question whether the provider is enabled, which asks the
    /// user nothing.
    pub fn is_enabled(&self) -> (call: IsEnabledCall<'_, H>)
        ensures
            call@ == (CallView { handle: self@, args: () }),
    {
        IsEnabledCall::new(&self.inner)
    }

    /// Starts the request to enable the provider.
    pub fn enable(&self) -> (call: EnableCall<'_, H>)
        ensures
            call@ == (CallView { handle: self@, args: () }),
    {
        EnableCall::new(&self.inner)
    }

    /// Starts the request for information about the node. It is started
    /// whether or not the provider has been enabled.
    pub fn get_info(&self) -> (call: GetInfoCall<'_, H>)
        ensures
            call@ == (CallView { handle: self@, args: () }),
    {
        GetInfoCall::new(&self.inner)
    }

    /// Starts a keysend payment. The arguments go to the provider as they
    /// are: none is checked here, and none is changed.
    pub fn keysend<'a>(&'a self, args: &'a JsKeysendArgs) -> (call: KeysendCall<'a, H>)
        ensures
            call@ == (CallView { handle: self@, args: args@ }),
    {
        KeysendCall::new(&self.inner, args.deref())
    }

    /// Starts the payment of an invoice. The invoice goes to the provider as
    /// it is, an empty one too: it is not read here.
    pub fn send_payment(&self, invoice: String) -> (call: SendPaymentCall<'_, H>)
        ensures
            call@ == (CallView { handle: self@, args: invoice@ }),
    {
        SendPaymentCall::new(&self.inner, invoice)
    }
}

} // verus!
