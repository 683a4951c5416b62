use vstd::prelude::*;

verus! {

/// An amount of a native currency.
#[derive(Debug, Clone, PartialEq, Eq)]
pub struct Coin {
    pub denom: String,
    pub amount: u128,
}

/// The mathematical value of a [`Coin`].
pub struct CoinView {
    pub denom: Seq<char>,
    pub amount: u128,
}

impl View for Coin {
    type V = CoinView;

    open spec fn view(&self) -> CoinView {
        CoinView { denom: self.denom@, amount: self.amount }
    }
}

impl DeepView for Coin {
    type V = CoinView;

    open spec fn deep_view(&self) -> CoinView {
        self@
    }
}

/// A call into a contract: the callee, the serialized message and the native
/// funds attached to the call.
#[derive(Debug, Clone, PartialEq, Eq)]
pub enum WasmMsg {
    Execute { contract_addr: String, msg: Vec<u8>, funds: Vec<Coin> },
}

/// The mathematical value of a [`WasmMsg`].
pub enum WasmMsgView {
    Execute { contract_addr: Seq<char>, msg: Seq<u8>, funds: Seq<CoinView> },
}

impl View for WasmMsg {
    type V = WasmMsgView;

    open spec fn view(&self) -> WasmMsgView {
        match *self {
            WasmMsg::Execute { contract_addr, msg, funds } => WasmMsgView::Execute {
                contract_addr: contract_addr@,
                msg: msg@,
                funds: funds.deep_view(),
            },
        }
    }
}

impl DeepView for WasmMsg {
    type V = WasmMsgView;

    open spec fn deep_view(&self) -> WasmMsgView {
        self@
    }
}

/// One outbound instruction, executed by the host when the batch commits.
#[derive(Debug, Clone, PartialEq, Eq)]
pub enum CosmosMsg {
    /// A contract call.
    Wasm(WasmMsg),
    /// A protobuf message addressed to a module of the chain by its type URL.
    Stargate { type_url: String, value: Vec<u8> },
}

/// The mathematical value of a [`CosmosMsg`].
pub enum CosmosMsgView {
    Wasm(WasmMsgView),
    Stargate { type_url: Seq<char>, value: Seq<u8> },
}

impl View for CosmosMsg {
    type V = CosmosMsgView;

    open spec fn view(&self) -> CosmosMsgView {
        match *self {
            CosmosMsg::Wasm(msg) => CosmosMsgView::Wasm(msg@),
            CosmosMsg::Stargate { type_url, value } => CosmosMsgView::Stargate {
                type_url: type_url@,
                value: value@,
            },
        }
    }
}

impl DeepView for CosmosMsg {
    type V = CosmosMsgView;

    open spec fn deep_view(&self) -> CosmosMsgView {
        self@
    }
}

/// A key and a value attached to a response for observers of the chain.
#[derive(Debug, Clone, PartialEq, Eq)]
pub struct Attribute {
    pub key: String,
    pub value: String,
}

/// The mathematical value of an [`Attribute`].
pub struct AttributeView {
    pub key: Seq<char>,
    pub value: Seq<char>,
}

impl View for Attribute {
    type V = AttributeView;

    open spec fn view(&self) -> AttributeView {
        AttributeView { key: self.key@, value: self.value@ }
    }
}

impl DeepView for Attribute {
    type V = AttributeView;

    open spec fn deep_view(&self) -> AttributeView {
        self@
    }
}

/// What an invocation hands back to the host: the instruction batch, in
/// execution order, and the attributes that describe the action.
#[derive(Debug, Clone, PartialEq, Eq)]
pub struct Response {
    pub messages: Vec<CosmosMsg>,
    pub attributes: Vec<Attribute>,
}

/// The mathematical value of a [`Response`].
pub struct ResponseView {
    pub messages: Seq<CosmosMsgView>,
    pub attributes: Seq<AttributeView>,
}

impl View for Response {
    type V = ResponseView;

    open spec fn view(&self) -> ResponseView {
        ResponseView {
            messages: self.messages.deep_view(),
            attributes: self.attributes.deep_view(),
        }
    }
}

/// The attribute with the given key and value.
pub open spec fn attr(key: Seq<char>, value: Seq<char>) -> AttributeView {
    AttributeView { key, value }
}

impl ResponseView {
    /// The response that carries nothing.
    pub open spec fn empty() -> ResponseView {
        ResponseView { messages: Seq::empty(), attributes: Seq::empty() }
    }
}

impl Default for Response {
    fn default() -> (res: Response)
        ensures
            res@ == ResponseView::empty(),
    {
        Response::new()
    }
}

impl Response {
    /// The response that carries nothing.
    pub fn new() -> (res: Response)
        ensures
            res@ == ResponseView::empty(),
    {
        let res = Response { messages: Vec::new(), attributes: Vec::new() };
        assert(res.messages.deep_view() =~= Seq::empty());
        assert(res.attributes.deep_view() =~= Seq::empty());
        res
    }

    /// Appends one attribute.
    pub fn add_attribute(self, key: &str, value: String) -> (res: Response)
        ensures
            res@ == (ResponseView {
                messages: self@.messages,
                attributes: self@.attributes.push(attr(key@, value@)),
            }),
    {
        let mut res = self;
        let ghost before = res.attributes.deep_view();
        res.attributes.push(Attribute { key: String::from_str(key), value });
        assert(res.attributes.deep_view() =~= before.push(attr(key@, value@)));
        res
    }

    /// Appends a batch of instructions, keeping their order.
    pub fn add_messages(self, messages: Vec<CosmosMsg>) -> (res: Response)
        ensures
            res@ == (ResponseView {
                messages: self@.messages + messages.deep_view(),
                attributes: self@.attributes,
            }),
    {
        let mut res = self;
        let mut messages = messages;
        let ghost before = res.messages.deep_view();
        let ghost added = messages.deep_view();
        res.messages.append(&mut messages);
        assert(res.messages.deep_view() =~= before + added);
        res
    }
}

} // verus!
