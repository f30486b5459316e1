use crate::codec::{
    args_view, bag_object, bytes_view, decode, decode_spec, encode_bag, encode_owner,
    object_text_of, owner_object, Operation, Request,
};
use crate::ledger::{Ledger, LedgerError, LedgerView};
use vstd::prelude::*;

verus! {

/// The operation succeeded.
pub const STATUS_OK: i32 = 0;

/// The ledger refused the operation: an id is taken or missing.
pub const STATUS_REFUSED: i32 = 1;

/// The response could not be written.
pub const STATUS_ENCODE_FAILED: i32 = 2;

/// The arguments were unavailable, malformed, or lacked a member.
pub const STATUS_BAD_ARGS: i32 = -1;

/// What a call hands back to the host: a status, and for a successful read
/// the response to return.
#[derive(Debug)]
pub struct Reply {
    pub status: i32,
    pub value: Option<Vec<u8>>,
}

/// The ledger after a request.
pub open spec fn after(v: LedgerView, req: Request) -> LedgerView {
    match req {
        Request::CreateOwner { owner_id } => if v.owners.contains_key(owner_id) {
            v
        } else {
            v.create_owner(owner_id)
        },
        Request::CreateBag { owner_id, bag_id, price, condition } => if !v.bags.contains_key(bag_id)
            && v.owners.contains_key(owner_id) {
            v.create_bag(bag_id, owner_id, price, condition)
        } else {
            v
        },
        Request::UpdateBagPrice { bag_id, price } => if v.bags.contains_key(bag_id) {
            v.update_bag_price(bag_id, price)
        } else {
            v
        },
        Request::TransferBag { bag_id, owner_id } => if v.bags.contains_key(bag_id)
            && v.owners.contains_key(owner_id) {
            v.transfer_bag(bag_id, owner_id)
        } else {
            v
        },
        _ => v,
    }
}

/// The response a read request gives, if the record exists.
pub open spec fn response_of(v: LedgerView, req: Request) -> Option<Option<Seq<u8>>> {
    match req {
        Request::GetOwner { owner_id } => if v.owners.contains_key(owner_id) {
            Some(object_text_of(owner_object(owner_id, v.owners[owner_id])))
        } else {
            None
        },
        Request::GetBag { bag_id } => if v.bags.contains_key(bag_id) {
            Some(object_text_of(bag_object(v.bags[bag_id])))
        } else {
            None
        },
        _ => None,
    }
}

/// The status a request gives.
pub open spec fn status_of(v: LedgerView, req: Request) -> i32 {
    match req {
        Request::CreateOwner { owner_id } => if v.owners.contains_key(owner_id) {
            STATUS_REFUSED
        } else {
            STATUS_OK
        },
        Request::CreateBag { owner_id, bag_id, .. } => if !v.bags.contains_key(bag_id)
            && v.owners.contains_key(owner_id) {
            STATUS_OK
        } else {
            STATUS_REFUSED
        },
        Request::UpdateBagPrice { bag_id, .. } => if v.bags.contains_key(bag_id) {
            STATUS_OK
        } else {
            STATUS_REFUSED
        },
        Request::TransferBag { bag_id, owner_id } => if v.bags.contains_key(bag_id)
            && v.owners.contains_key(owner_id) {
            STATUS_OK
        } else {
            STATUS_REFUSED
        },
        _ => match response_of(v, req) {
            None => STATUS_REFUSED,
            Some(None) => STATUS_ENCODE_FAILED,
            Some(Some(_)) => STATUS_OK,
        },
    }
}

/// The value a request hands back: the response of a successful read.
pub open spec fn value_of(v: LedgerView, req: Request) -> Option<Seq<u8>> {
    match response_of(v, req) {
        Some(Some(b)) => Some(b),
        _ => None,
    }
}

fn status(r: Result<(), LedgerError>) -> (s: i32)
    ensures
        s == if r is Ok {
            STATUS_OK
        } else {
            STATUS_REFUSED
        },
{
    match r {
        Ok(()) => STATUS_OK,
        Err(_) => STATUS_REFUSED,
    }
}

fn read_reply(value: Option<Vec<u8>>) -> (r: Reply)
    ensures
        r.status == if value is Some {
            STATUS_OK
        } else {
            STATUS_ENCODE_FAILED
        },
        bytes_view(r.value) == bytes_view(value),
{
    match value {
        Some(b) => Reply { status: STATUS_OK, value: Some(b) },
        None => Reply { status: STATUS_ENCODE_FAILED, value: None },
    }
}

/// Answers a read request from the ledger.
fn respond(ledger: &Ledger, req: Request) -> (r: Reply)
    requires
        ledger.wf(),
        req is GetOwner || req is GetBag,
    ensures
        r.status == status_of(ledger@, req),
        bytes_view(r.value) == value_of(ledger@, req),
{
    match req {
        Request::GetOwner { owner_id } => match ledger.get_owner(owner_id) {
            Err(_) => Reply { status: STATUS_REFUSED, value: None },
            Ok(o) => read_reply(encode_owner(&o)),
        },
        Request::GetBag { bag_id } => match ledger.get_bag(bag_id) {
            Err(_) => Reply { status: STATUS_REFUSED, value: None },
            Ok(b) => read_reply(encode_bag(&b)),
        },
        _ => Reply { status: STATUS_BAD_ARGS, value: None },
    }
}

/// Carries out a decoded request on the ledger, in one step.
pub fn execute(ledger: &mut Ledger, req: Request) -> (r: Reply)
    requires
        old(ledger).wf(),
    ensures
        final(ledger).wf(),
        final(ledger)@ == after(old(ledger)@, req),
        r.status == status_of(old(ledger)@, req),
        bytes_view(r.value) == value_of(old(ledger)@, req),
{
    match req {
        Request::CreateOwner { owner_id } => {
            let s = status(ledger.create_owner(owner_id));
            Reply { status: s, value: None }
        },
        Request::CreateBag { owner_id, bag_id, price, condition } => {
            let s = status(ledger.create_bag(bag_id, owner_id, price, condition));
            Reply { status: s, value: None }
        },
        Request::UpdateBagPrice { bag_id, price } => {
            let s = status(ledger.update_bag_price(bag_id, price));
            Reply { status: s, value: None }
        },
        Request::TransferBag { bag_id, owner_id } => {
            let s = status(ledger.transfer_bag(bag_id, owner_id));
            Reply { status: s, value: None }
        },
        Request::GetOwner { .. } | Request::GetBag { .. } => respond(ledger, req),
    }
}

/// Decodes an operation's arguments and carries it out; arguments that do
/// not decode give `STATUS_BAD_ARGS` and leave the ledger as it was.
pub fn handle(ledger: &mut Ledger, op: Operation, args: Option<Vec<u8>>) -> (r: Reply)
    requires
        old(ledger).wf(),
    ensures
        final(ledger).wf(),
        match decode_spec(op, args_view(&args)) {
            Ok(req) => final(ledger)@ == after(old(ledger)@, req) && r.status == status_of(
                old(ledger)@,
                req,
            ) && bytes_view(r.value) == value_of(old(ledger)@, req),
            Err(_) => final(ledger)@ == old(ledger)@ && r.status == STATUS_BAD_ARGS && r.value
                is None,
        },
{
    match decode(op, &args) {
        Err(_) => Reply { status: STATUS_BAD_ARGS, value: None },
        Ok(req) => execute(ledger, req),
    }
}

/// Adds an owner, from arguments `{"owner_id"}`.
pub fn create_owner(ledger: &mut Ledger, args: Option<Vec<u8>>) -> (status: i32)
    requires
        old(ledger).wf(),
    ensures
        final(ledger).wf(),
        match decode_spec(Operation::CreateOwner, args_view(&args)) {
            Ok(req) => final(ledger)@ == after(old(ledger)@, req) && status == status_of(
                old(ledger)@,
                req,
            ),
            Err(_) => final(ledger)@ == old(ledger)@ && status == STATUS_BAD_ARGS,
        },
{
    handle(ledger, Operation::CreateOwner, args).status
}

/// Adds a bag, from arguments `{"owner_id", "item_id", "price", "condition"}`.
pub fn create_bag(ledger: &mut Ledger, args: Option<Vec<u8>>) -> (status: i32)
    requires
        old(ledger).wf(),
    ensures
        final(ledger).wf(),
        match decode_spec(Operation::CreateBag, args_view(&args)) {
            Ok(req) => final(ledger)@ == after(old(ledger)@, req) && status == status_of(
                old(ledger)@,
                req,
            ),
            Err(_) => final(ledger)@ == old(ledger)@ && status == STATUS_BAD_ARGS,
        },
{
    handle(ledger, Operation::CreateBag, args).status
}

/// Sets a bag's price, from arguments `{"item_id", "price"}`.
pub fn update_bag_price(ledger: &mut Ledger, args: Option<Vec<u8>>) -> (status: i32)
    requires
        old(ledger).wf(),
    ensures
        final(ledger).wf(),
        match decode_spec(Operation::UpdateBagPrice, args_view(&args)) {
            Ok(req) => final(ledger)@ == after(old(ledger)@, req) && status == status_of(
                old(ledger)@,
                req,
            ),
            Err(_) => final(ledger)@ == old(ledger)@ && status == STATUS_BAD_ARGS,
        },
{
    handle(ledger, Operation::UpdateBagPrice, args).status
}

/// Moves a bag to another owner, from arguments `{"item_id", "owner_id"}`.
pub fn transfer_bag(ledger: &mut Ledger, args: Option<Vec<u8>>) -> (status: i32)
    requires
        old(ledger).wf(),
    ensures
        final(ledger).wf(),
        match decode_spec(Operation::TransferBag, args_view(&args)) {
            Ok(req) => final(ledger)@ == after(old(ledger)@, req) && status == status_of(
                old(ledger)@,
                req,
            ),
            Err(_) => final(ledger)@ == old(ledger)@ && status == STATUS_BAD_ARGS,
        },
{
    handle(ledger, Operation::TransferBag, args).status
}

/// Reads an owner, from arguments `{"owner_id"}`.
pub fn get_owner(ledger: &Ledger, args: Option<Vec<u8>>) -> (r: Reply)
    requires
        ledger.wf(),
    ensures
        match decode_spec(Operation::GetOwner, args_view(&args)) {
            Ok(req) => r.status == status_of(ledger@, req) && bytes_view(r.value) == value_of(
                ledger@,
                req,
            ),
            Err(_) => r.status == STATUS_BAD_ARGS && r.value is None,
        },
{
    match decode(Operation::GetOwner, &args) {
        Err(_) => Reply { status: STATUS_BAD_ARGS, value: None },
        Ok(req) => respond(ledger, req),
    }
}

/// Reads a bag, from arguments `{"item_id"}`.
pub fn get_bag(ledger: &Ledger, args: Option<Vec<u8>>) -> (r: Reply)
    requires
        ledger.wf(),
    ensures
        match decode_spec(Operation::GetBag, args_view(&args)) {
            Ok(req) => r.status == status_of(ledger@, req) && bytes_view(r.value) == value_of(
                ledger@,
                req,
            ),
            Err(_) => r.status == STATUS_BAD_ARGS && r.value is None,
        },
{
    match decode(Operation::GetBag, &args) {
        Err(_) => Reply { status: STATUS_BAD_ARGS, value: None },
        Ok(req) => respond(ledger, req),
    }
}

} // verus!
