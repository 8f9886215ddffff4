use vstd::prelude::*;

verus! {

/// An amount of one native token.
#[derive(Clone, Debug, PartialEq, Eq)]
pub struct Coin {
    pub denom: String,
    pub amount: u128,
}

/// A key-value pair attached to a response or an event.
#[derive(Clone, Debug, PartialEq, Eq)]
pub struct Attribute {
    pub key: String,
    pub value: String,
}

/// What an Astroport pool holds: a CW20 token contract or a native denom.
#[derive(Clone, Debug, PartialEq, Eq)]
pub enum AssetInfo {
    Token { contract_addr: String },
    NativeToken { denom: String },
}

/// The value of an asset: a token contract's address or a native denom.
pub ghost enum AssetView {
    Token { contract_addr: Seq<char> },
    NativeToken { denom: Seq<char> },
}

impl DeepView for AssetInfo {
    type V = AssetView;

    open spec fn deep_view(&self) -> AssetView {
        match self {
            AssetInfo::Token { contract_addr } => AssetView::Token { contract_addr: contract_addr@ },
            AssetInfo::NativeToken { denom } => AssetView::NativeToken { denom: denom@ },
        }
    }
}

/// An event emitted while a sub-message ran.
#[derive(Clone, Debug, PartialEq, Eq)]
pub struct Event {
    pub ty: String,
    pub attributes: Vec<Attribute>,
}

/// A sub-message that executes the contract at `contract_addr` with the
/// JSON message `msg`, paid with `funds`; its reply, sent on success only,
/// carries `reply_id`.
#[derive(Clone, Debug, PartialEq, Eq)]
pub struct SubMsg {
    pub contract_addr: String,
    pub msg: Vec<u8>,
    pub funds: Vec<Coin>,
    pub reply_id: u64,
}

/// What a handled message answers: sub-messages to run, then attributes.
#[derive(Clone, Debug, PartialEq, Eq)]
pub struct Response {
    pub submessages: Vec<SubMsg>,
    pub attributes: Vec<Attribute>,
}

/// The attributes are, in order, the given (key, value) pairs.
pub open spec fn attributes_are(attrs: Seq<Attribute>, expected: Seq<(Seq<char>, Seq<char>)>) -> bool {
    &&& attrs.len() == expected.len()
    &&& forall|i: int|
        0 <= i < attrs.len() ==> (#[trigger] attrs[i]).key@ == expected[i].0 && attrs[i].value@
            == expected[i].1
}

/// The attribute has the given key and value.
pub open spec fn attribute_is(a: Attribute, key: Seq<char>, value: Seq<char>) -> bool {
    a.key@ == key && a.value@ == value
}

/// The response carries no sub-message and exactly the given attributes.
pub open spec fn plain_response(r: Response, expected: Seq<(Seq<char>, Seq<char>)>) -> bool {
    r.submessages@.len() == 0 && attributes_are(r.attributes@, expected)
}

impl Response {
    /// A response with no sub-message and no attribute.
    pub fn new() -> (r: Response)
        ensures
            r.submessages@ == Seq::<SubMsg>::empty(),
            r.attributes@ == Seq::<Attribute>::empty(),
    {
        Response { submessages: Vec::new(), attributes: Vec::new() }
    }

    /// Appends the attribute `key = value`.
    pub fn add_attribute(&mut self, key: &str, value: String)
        ensures
            final(self).submessages@ == old(self).submessages@,
            final(self).attributes@.len() == old(self).attributes@.len() + 1,
            final(self).attributes@.drop_last() == old(self).attributes@,
            attribute_is(final(self).attributes@.last(), key@, value@),
    {
        let a = Attribute { key: String::from_str(key), value };
        self.attributes.push(a);
        assert(self.attributes@.drop_last() =~= old(self).attributes@);
    }

    /// Appends a sub-message.
    pub fn add_submessage(&mut self, call: SubMsg)
        ensures
            final(self).submessages@ == old(self).submessages@.push(call),
            final(self).attributes@ == old(self).attributes@,
    {
        self.submessages.push(call);
    }
}

/// Appending one matching attribute extends a matching list.
pub proof fn lemma_attributes_push(
    attrs: Seq<Attribute>,
    expected: Seq<(Seq<char>, Seq<char>)>,
    key: Seq<char>,
    value: Seq<char>,
    longer: Seq<Attribute>,
)
    requires
        attributes_are(attrs, expected),
        longer.len() == attrs.len() + 1,
        longer.drop_last() == attrs,
        attribute_is(longer.last(), key, value),
    ensures
        attributes_are(longer, expected.push((key, value))),
{
    assert forall|i: int| 0 <= i < longer.len() implies (#[trigger] longer[i]).key@ == expected.push(
        (key, value),
    )[i].0 && longer[i].value@ == expected.push((key, value))[i].1 by {
        if i < attrs.len() {
            assert(longer[i] == longer.drop_last()[i]);
        }
    }
}

} // verus!
