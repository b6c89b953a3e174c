use vstd::prelude::*;

use cosmwasm_std::StdError;

use crate::error::{generic_err, ContractError, ErrorView};
use crate::msg::{ExecuteMsg, FlowerInfoResponse, InstantiateMsg, QueryMsg, Response};
use crate::state::{option_view, Flower, FlowerStore, FlowerView};

verus! {

/// The records of a store, by identifier.
pub type Ledger = Map<Seq<char>, FlowerView>;

/// The record held under `id`, if any.
pub open spec fn lookup_step(m: Ledger, id: Seq<char>) -> Option<FlowerView> {
    if m.contains_key(id) {
        Some(m[id])
    } else {
        None
    }
}

/// Creating `f`: refused when its identifier is taken, else the record is added.
pub open spec fn create_step(m: Ledger, f: FlowerView) -> Result<Ledger, ErrorView> {
    if m.contains_key(f.id) {
        Err(ErrorView::IdTaken(f.id))
    } else {
        Ok(m.insert(f.id, f))
    }
}

/// Taking `d` units from the record found under `id` (`rec`).
/// A missing record, a shortfall and a negative quantity are refused, in that order.
pub open spec fn sell_record(rec: Option<FlowerView>, id: Seq<char>, d: i32) -> Result<
    FlowerView,
    ErrorView,
> {
    match rec {
        None => Err(ErrorView::IdNotExists(id)),
        Some(f) => if d > f.amount {
            Err(ErrorView::NotEnoughAmount)
        } else if d < 0 {
            Err(ErrorView::InvalidAmount)
        } else {
            Ok(FlowerView { amount: (f.amount - d) as i32, ..f })
        },
    }
}

/// Taking `d` units from the record under `id`: the record is rewritten, or nothing changes.
pub open spec fn sell_step(m: Ledger, id: Seq<char>, d: i32) -> Result<Ledger, ErrorView> {
    match sell_record(lookup_step(m, id), id, d) {
        Ok(f) => Ok(m.insert(id, f)),
        Err(e) => Err(e),
    }
}

/// The records after a step: the new ones on success, the old ones on refusal.
pub open spec fn after(m: Ledger, r: Result<Ledger, ErrorView>) -> Ledger {
    match r {
        Ok(m2) => m2,
        Err(_) => m,
    }
}

/// The error of a call matches the refusal of its step; success matches success.
pub open spec fn agrees<T>(r: Result<T, ContractError>, s: Result<Ledger, ErrorView>) -> bool {
    match r {
        Ok(_) => s is Ok,
        Err(e) => s == Err::<Ledger, ErrorView>(e@),
    }
}

/// The identifier of the bootstrap record.
pub open spec fn bootstrap_id() -> Seq<char> {
    seq!['0']
}

/// The record that `add_new` is asked to create.
pub open spec fn new_record(id: String, name: String, amount: i32, price: i32) -> FlowerView {
    FlowerView { id: id@, name: name@, amount, price }
}

/// What each state-changing message does to the records.
pub open spec fn execute_step(m: Ledger, msg: ExecuteMsg) -> Result<Ledger, ErrorView> {
    match msg {
        ExecuteMsg::AddNew { id, name, amount, price } => create_step(
            m,
            new_record(id, name, amount, price),
        ),
        ExecuteMsg::Sell { id, amount } => sell_step(m, id@, amount),
    }
}

/// The attributes that each state-changing message reports on success.
pub open spec fn execute_attributes(msg: ExecuteMsg) -> Seq<(Seq<char>, Seq<char>)> {
    match msg {
        ExecuteMsg::AddNew { id, .. } => seq![("method"@, "add_new"@), ("id"@, id@)],
        ExecuteMsg::Sell { .. } => seq![("method"@, "sell"@)],
    }
}

/// Stores the bootstrap record, under the identifier `"0"`, with the given fields.
pub fn instantiate(store: &mut FlowerStore, msg: InstantiateMsg) -> (r: Result<
    Response,
    ContractError,
>)
    requires
        old(store).wf(),
    ensures
        final(store).wf(),
        final(store)@ == old(store)@.insert(
            bootstrap_id(),
            FlowerView { id: bootstrap_id(), name: msg.name@, amount: msg.amount, price: msg.price },
        ),
        r matches Ok(resp) && resp@ == Seq::<(Seq<char>, Seq<char>)>::empty(),
{
    let flower = bootstrap_flower(msg);
    store.put(flower);
    Ok(Response::new())
}

/// The bootstrap record that `msg` describes.
pub fn bootstrap_flower(msg: InstantiateMsg) -> (r: Flower)
    ensures
        r@ == (FlowerView { id: bootstrap_id(), name: msg.name@, amount: msg.amount, price: msg.price }),
{
    let flower = Flower { id: "0".to_string(), name: msg.name, amount: msg.amount, price: msg.price };
    proof {
        reveal_strlit("0");
        assert(flower.id@ =~= bootstrap_id());
    }
    flower
}

/// What a successful creation of `id` reports.
pub fn created_response(id: String) -> (r: Response)
    ensures
        r@ == seq![("method"@, "add_new"@), ("id"@, id@)],
{
    let resp = Response::new().add_attribute("method".to_string(), "add_new".to_string());
    let r = resp.add_attribute("id".to_string(), id);
    assert(r@ =~= seq![("method"@, "add_new"@), ("id"@, id@)]);
    r
}

/// What a successful sale reports.
pub fn sold_response() -> (r: Response)
    ensures
        r@ == seq![("method"@, "sell"@)],
{
    let r = Response::new().add_attribute("method".to_string(), "sell".to_string());
    assert(r@ =~= seq![("method"@, "sell"@)]);
    r
}

/// Routes a state-changing message to `add_new` or `sell`.
pub fn execute(store: &mut FlowerStore, msg: ExecuteMsg) -> (r: Result<Response, ContractError>)
    requires
        old(store).wf(),
    ensures
        final(store).wf(),
        final(store)@ == after(old(store)@, execute_step(old(store)@, msg)),
        agrees(r, execute_step(old(store)@, msg)),
        r matches Ok(resp) ==> resp@ == execute_attributes(msg),
{
    match msg {
        ExecuteMsg::AddNew { id, name, amount, price } => add_new(store, id, name, amount, price),
        ExecuteMsg::Sell { id, amount } => sell(store, id, amount),
    }
}

/// Creates a record; refused with `IdTaken` when `id` already holds one.
pub fn add_new(store: &mut FlowerStore, id: String, name: String, amount: i32, price: i32) -> (r:
    Result<Response, ContractError>)
    requires
        old(store).wf(),
    ensures
        final(store).wf(),
        final(store)@ == after(
            old(store)@,
            create_step(old(store)@, new_record(id, name, amount, price)),
        ),
        agrees(r, create_step(old(store)@, new_record(id, name, amount, price))),
        r is Ok <==> !old(store)@.contains_key(id@),
        r matches Ok(resp) ==> resp@ == seq![("method"@, "add_new"@), ("id"@, id@)],
{
    let current = store.get(&id);
    let flower = Flower { id: id.clone(), name, amount, price };
    match create_transition(current, flower) {
        Ok(rec) => {
            store.put(rec);
        },
        Err(e) => {
            return Err(e);
        },
    }
    Ok(created_response(id))
}

/// Decides whether `flower` may be stored, given the record found under its identifier.
pub fn create_transition(existing: Option<Flower>, flower: Flower) -> (r: Result<
    Flower,
    ContractError,
>)
    ensures
        existing is Some ==> (r matches Err(e) && e@ == ErrorView::IdTaken(flower@.id)),
        existing is None ==> (r matches Ok(f) && f@ == flower@),
{
    match existing {
        Some(_) => Err(ContractError::IdTaken { id: flower.id }),
        None => Ok(flower),
    }
}

/// Decides what becomes of the record found under `id` when `amount` units are taken from it.
pub fn sell_transition(record: Option<Flower>, id: &String, amount: i32) -> (r: Result<
    Flower,
    ContractError,
>)
    ensures
        match r {
            Ok(f) => sell_record(option_view(record), id@, amount) == Ok::<FlowerView, ErrorView>(
                f@,
            ),
            Err(e) => sell_record(option_view(record), id@, amount) == Err::<FlowerView, ErrorView>(
                e@,
            ),
        },
{
    match record {
        Some(mut rec) => {
            if amount > rec.amount {
                return Err(ContractError::NotEnoughAmount {  });
            }
            if amount < 0 {
                return Err(ContractError::InvalidAmount {  });
            }
            rec.amount = rec.amount - amount;
            Ok(rec)
        },
        None => Err(ContractError::IdNotExists { id: id.clone() }),
    }
}

/// Takes `amount` units from the record under `id`; on refusal nothing changes.
pub fn sell(store: &mut FlowerStore, id: String, amount: i32) -> (r: Result<Response, ContractError>)
    requires
        old(store).wf(),
    ensures
        final(store).wf(),
        final(store)@ == after(old(store)@, sell_step(old(store)@, id@, amount)),
        agrees(r, sell_step(old(store)@, id@, amount)),
        r matches Ok(resp) ==> resp@ == seq![("method"@, "sell"@)],
{
    let current = store.get(&id);
    match sell_transition(current, &id, amount) {
        Ok(rec) => {
            store.put(rec);
        },
        Err(e) => {
            return Err(e);
        },
    }
    Ok(sold_response())
}

/// Routes a read-only message to `query_flower`.
pub fn query(store: &FlowerStore, msg: QueryMsg) -> (r: Result<FlowerInfoResponse, StdError>)
    requires
        store.wf(),
    ensures
        match msg {
            QueryMsg::GetFlower { id } => {
                &&& r is Ok <==> store@.contains_key(id@)
                &&& r matches Ok(resp) ==> resp@ == lookup_step(store@, id@)
            },
        },
{
    match msg {
        QueryMsg::GetFlower { id } => query_flower(store, id),
    }
}

/// The record under `id`; a missing record is an error, not an empty answer.
pub fn query_flower(store: &FlowerStore, id: String) -> (r: Result<FlowerInfoResponse, StdError>)
    requires
        store.wf(),
    ensures
        r is Ok <==> store@.contains_key(id@),
        r matches Ok(resp) ==> resp@ == lookup_step(store@, id@),
{
    flower_info(store.get(&id))
}

/// The answer to a lookup that found `found`: absence is an error, not an empty answer.
pub fn flower_info(found: Option<Flower>) -> (r: Result<FlowerInfoResponse, StdError>)
    ensures
        r is Ok <==> found is Some,
        r matches Ok(resp) ==> resp@ == option_view(found),
{
    match found {
        Some(flower) => Ok(FlowerInfoResponse { flower: Some(flower) }),
        None => Err(generic_err("Flower does not exist")),
    }
}

} // verus!
