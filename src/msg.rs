use vstd::prelude::*;

use crate::state::{option_view, Flower, FlowerView};

verus! {

/// Creates the bootstrap record under the identifier `"0"`.
#[derive(Clone, Debug)]
pub struct InstantiateMsg {
    pub name: String,
    pub amount: i32,
    pub price: i32,
}

/// The state-changing calls.
#[derive(Clone, Debug)]
pub enum ExecuteMsg {
    AddNew { id: String, name: String, amount: i32, price: i32 },
    Sell { id: String, amount: i32 },
}

/// The read-only calls.
#[derive(Clone, Debug)]
pub enum QueryMsg {
    GetFlower { id: String },
}

/// The answer to a lookup.
#[derive(Clone, Debug)]
pub struct FlowerInfoResponse {
    pub flower: Option<Flower>,
}

impl View for FlowerInfoResponse {
    type V = Option<FlowerView>;

    open spec fn view(&self) -> Option<FlowerView> {
        option_view(self.flower)
    }
}

impl PartialEq for FlowerInfoResponse {
    fn eq(&self, o: &FlowerInfoResponse) -> (r: bool) {
        match (&self.flower, &o.flower) {
            (Some(a), Some(b)) => a == b,
            (None, None) => true,
            _ => false,
        }
    }
}

impl vstd::std_specs::cmp::PartialEqSpecImpl for FlowerInfoResponse {
    open spec fn obeys_eq_spec() -> bool {
        true
    }

    open spec fn eq_spec(&self, o: &FlowerInfoResponse) -> bool {
        self@ == o@
    }
}

/// A key and a value describing a successful call.
#[derive(Clone, Debug)]
pub struct Attribute {
    pub key: String,
    pub value: String,
}

/// What a successful state-changing call reports.
#[derive(Clone, Debug)]
pub struct Response {
    pub attributes: Vec<Attribute>,
}

impl View for Response {
    type V = Seq<(Seq<char>, Seq<char>)>;

    open spec fn view(&self) -> Seq<(Seq<char>, Seq<char>)> {
        self.attributes@.map_values(|a: Attribute| (a.key@, a.value@))
    }
}

impl Response {
    /// A response with no attributes.
    pub fn new() -> (r: Response)
        ensures
            r@ == Seq::<(Seq<char>, Seq<char>)>::empty(),
    {
        let r = Response { attributes: Vec::new() };
        assert(r@ =~= Seq::<(Seq<char>, Seq<char>)>::empty());
        r
    }

    /// This response with one more attribute at the end.
    pub fn add_attribute(self, key: String, value: String) -> (r: Response)
        ensures
            r@ == self@.push((key@, value@)),
    {
        let mut attributes = self.attributes;
        attributes.push(Attribute { key, value });
        let r = Response { attributes };
        assert(r@ =~= self@.push((key@, value@)));
        r
    }
}

} // verus!
