//! The answer to a request for node information, and its boundary form.

use vstd::prelude::*;
use vstd::std_specs::convert::{FromSpec, FromSpecImpl};

verus! {

/// The node that the provider is connected to. A field that the provider
/// did not give is `None`.
#[derive(Debug, PartialEq, Eq)]
pub struct GetInfoNode {
    /// Alias of the node.
    pub alias: Option<String>,
    /// Public key of the node, hex encoded.
    pub pubkey: Option<String>,
    /// Color of the node.
    pub color: Option<String>,
}

/// Mathematical model of a [`GetInfoNode`].
pub struct GetInfoNodeView {
    pub alias: Option<Seq<char>>,
    pub pubkey: Option<Seq<char>>,
    pub color: Option<Seq<char>>,
}

impl View for GetInfoNode {
    type V = GetInfoNodeView;

    open spec fn view(&self) -> GetInfoNodeView {
        GetInfoNodeView {
            alias: self.alias.deep_view(),
            pubkey: self.pubkey.deep_view(),
            color: self.color.deep_view(),
        }
    }
}

impl Clone for GetInfoNode {
    fn clone(&self) -> (node: Self)
        ensures
            node@ == self@,
    {
        GetInfoNode {
            alias: self.alias.clone(),
            pubkey: self.pubkey.clone(),
            color: self.color.clone(),
        }
    }
}

/// What the provider answers to a request for information: the node and the
/// names of the methods that the provider supports, in the provider's order.
#[derive(Debug, PartialEq, Eq)]
pub struct GetInfoResponse {
    /// The connected node.
    pub node: GetInfoNode,
    /// Names of the supported methods.
    pub methods: Vec<String>,
}

/// Mathematical model of a [`GetInfoResponse`].
pub struct GetInfoResponseView {
    pub node: GetInfoNodeView,
    pub methods: Seq<Seq<char>>,
}

impl View for GetInfoResponse {
    type V = GetInfoResponseView;

    open spec fn view(&self) -> GetInfoResponseView {
        GetInfoResponseView { node: self.node@, methods: self.methods.deep_view() }
    }
}

/// Boundary form of a [`GetInfoNode`].
#[derive(Debug, PartialEq, Eq)]
pub struct JsGetInfoNode {
    inner: GetInfoNode,
}

impl View for JsGetInfoNode {
    type V = GetInfoNodeView;

    closed spec fn view(&self) -> GetInfoNodeView {
        self.inner@
    }
}

impl From<GetInfoNode> for JsGetInfoNode {
    fn from(inner: GetInfoNode) -> (node: Self)
        ensures
            node@ == inner@,
    {
        Self { inner }
    }
}

impl FromSpecImpl<GetInfoNode> for JsGetInfoNode {
    open spec fn obeys_from_spec() -> bool {
        true
    }

    closed spec fn from_spec(inner: GetInfoNode) -> Self {
        Self { inner }
    }
}

impl JsGetInfoNode {
    /// A copy of the alias, `None` where the node has none.
    pub fn alias(&self) -> (alias: Option<String>)
        ensures
            alias.deep_view() == self@.alias,
    {
        self.inner.alias.clone()
    }

    /// A copy of the public key, `None` where the node has none.
    pub fn pubkey(&self) -> (pubkey: Option<String>)
        ensures
            pubkey.deep_view() == self@.pubkey,
    {
        self.inner.pubkey.clone()
    }

    /// A copy of the color, `None` where the node has none.
    pub fn color(&self) -> (color: Option<String>)
        ensures
            color.deep_view() == self@.color,
    {
        self.inner.color.clone()
    }
}

/// Boundary form of a [`GetInfoResponse`].
#[derive(Debug, PartialEq, Eq)]
pub struct JsGetInfoResponse {
    inner: GetInfoResponse,
}

impl View for JsGetInfoResponse {
    type V = GetInfoResponseView;

    closed spec fn view(&self) -> GetInfoResponseView {
        self.inner@
    }
}

impl From<GetInfoResponse> for JsGetInfoResponse {
    fn from(inner: GetInfoResponse) -> (response: Self)
        ensures
            response@ == inner@,
    {
        Self { inner }
    }
}

impl FromSpecImpl<GetInfoResponse> for JsGetInfoResponse {
    open spec fn obeys_from_spec() -> bool {
        true
    }

    closed spec fn from_spec(inner: GetInfoResponse) -> Self {
        Self { inner }
    }
}

impl JsGetInfoResponse {
    /// A copy of the node, in boundary form.
    pub fn node(&self) -> (node: JsGetInfoNode)
        ensures
            node@ == self@.node,
    {
        JsGetInfoNode { inner: self.inner.node.clone() }
    }

    /// A copy of the names of the supported methods, all of them and in the
    /// order in which the provider gave them.
    pub fn methods(&self) -> (methods: Vec<String>)
        ensures
            methods.deep_view() == self@.methods,
    {
        let methods = self.inner.methods.clone();
        assert(methods.deep_view() =~= self.inner.methods.deep_view());
        methods
    }
}

/// Nothing is lost on the way to the boundary form: a response that is
/// converted and then read gives back what it held. Every method name is
/// there, in its place, and each field of the node is present exactly where
/// the response has it, with the same text.
pub proof fn lemma_boundary_form_is_lossless(response: GetInfoResponse)
    ensures
        ({
            let shown = <JsGetInfoResponse as FromSpec<GetInfoResponse>>::from_spec(response);
            &&& shown@.methods.len() == response.methods.len()
            &&& forall|i: int|
                0 <= i < response.methods.len() ==> #[trigger] shown@.methods[i]
                    == response.methods[i]@
            &&& shown@.node.alias == response.node.alias.deep_view()
            &&& shown@.node.pubkey == response.node.pubkey.deep_view()
            &&& shown@.node.color == response.node.color.deep_view()
        }),
        <JsGetInfoNode as FromSpec<GetInfoNode>>::from_spec(response.node)@ == response.node@,
{
}

} // verus!
