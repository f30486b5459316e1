use crate::ledger::{Bag, Condition, Owner};
use serde_json::Value;
use vstd::prelude::*;

verus! {

/// serde_json's document type, carried unopened from the parser to the
/// member lookup.
#[verifier::external_type_specification]
#[verifier::external_body]
pub struct ExValue(Value);

/// What one member of an argument object holds, as far as requests read it.
#[derive(Debug)]
pub enum Field {
    Missing,
    Unsigned(u64),
    Text(String),
    Other,
}

/// `Field` as mathematics.
pub enum FieldModel {
    Missing,
    Unsigned(u64),
    Text(Seq<char>),
    Other,
}

impl Field {
    pub open spec fn view(&self) -> FieldModel {
        match self {
            Field::Missing => FieldModel::Missing,
            Field::Unsigned(n) => FieldModel::Unsigned(*n),
            Field::Text(s) => FieldModel::Text(s@),
            Field::Other => FieldModel::Other,
        }
    }
}

/// One member of a response object.
#[derive(Debug)]
pub enum Member {
    Unsigned(u64),
    List(Vec<u32>),
    Text(String),
}

/// `Member` as mathematics.
pub enum MemberModel {
    Unsigned(u64),
    List(Seq<u32>),
    Text(Seq<char>),
}

impl Member {
    pub open spec fn view(&self) -> MemberModel {
        match self {
            Member::Unsigned(n) => MemberModel::Unsigned(*n),
            Member::List(l) => MemberModel::List(l@),
            Member::Text(s) => MemberModel::Text(s@),
        }
    }
}

/// The document that a byte buffer holds, if it is well-formed JSON.
pub uninterp spec fn json_of(b: Seq<u8>) -> Option<Value>;

/// What the member named `key` of a document holds.
pub uninterp spec fn member_of(v: Value, key: Seq<char>) -> FieldModel;

/// The lowercase form of a text.
pub uninterp spec fn lower_of(s: Seq<char>) -> Seq<char>;

/// The JSON text of an object with these members, if it can be written.
pub uninterp spec fn object_text_of(members: Seq<(Seq<char>, MemberModel)>) -> Option<Seq<u8>>;

/// Relies on `serde_json::from_slice`, read into a `Value`: whether the bytes
/// are JSON, and the document they hold, depend on the bytes alone.
#[verifier::external_body]
fn parse_json(b: &[u8]) -> (r: Option<Value>)
    ensures
        r == json_of(b@),
{
    serde_json::from_slice::<Value>(b).ok()
}

/// Relies on `serde_json::Value::get` with a string key: the member of an
/// object of that name, `None` when the document is no object or lacks it.
/// A number member is read with `Number::as_u64`.
#[verifier::external_body]
fn member(v: &Value, key: &str) -> (r: Field)
    ensures
        r@ == member_of(*v, key@),
{
    match v.get(key) {
        None => Field::Missing,
        Some(Value::String(s)) => Field::Text(s.clone()),
        Some(Value::Number(n)) => match n.as_u64() {
            Some(u) => Field::Unsigned(u),
            None => Field::Other,
        },
        Some(_) => Field::Other,
    }
}

/// Relies on `str::to_lowercase`: the result depends on the text alone.
#[verifier::external_body]
fn lowercase(s: &str) -> (r: String)
    ensures
        r@ == lower_of(s@),
{
    s.to_lowercase()
}

/// Relies on `serde_json::to_vec` of an object built with
/// `serde_json::Map::insert`, each member turned into a `Value` by `From`.
#[verifier::external_body]
fn object_text(members: &Vec<(String, Member)>) -> (r: Option<Vec<u8>>)
    ensures
        r matches Some(b) ==> object_text_of(members_view(members@)) == Some(b@),
        r is None ==> object_text_of(members_view(members@)) is None,
{
    let mut m = serde_json::Map::new();
    for (k, v) in members {
        let v = match v {
            Member::Unsigned(n) => Value::from(*n),
            Member::List(l) => Value::from(l.clone()),
            Member::Text(s) => Value::from(s.clone()),
        };
        m.insert(k.clone(), v);
    }
    serde_json::to_vec(&Value::Object(m)).ok()
}

/// The text by which a condition is written.
pub open spec fn condition_text(c: Condition) -> Seq<char> {
    match c {
        Condition::New => "new"@,
        Condition::Good => "good"@,
        Condition::Bad => "bad"@,
        Condition::Destroyed => "destroyed"@,
    }
}

/// The condition written by a lowercase text, if any.
pub open spec fn condition_named(t: Seq<char>) -> Option<Condition> {
    if t == "new"@ {
        Some(Condition::New)
    } else if t == "good"@ {
        Some(Condition::Good)
    } else if t == "bad"@ {
        Some(Condition::Bad)
    } else if t == "destroyed"@ {
        Some(Condition::Destroyed)
    } else {
        None
    }
}

/// The text by which a condition is written.
pub fn condition_name(c: Condition) -> (r: &'static str)
    ensures
        r@ == condition_text(c),
{
    match c {
        Condition::New => "new",
        Condition::Good => "good",
        Condition::Bad => "bad",
        Condition::Destroyed => "destroyed",
    }
}

/// The condition that an already lowercased text names.
pub fn condition_from_lowered(t: &String) -> (r: Option<Condition>)
    ensures
        r == condition_named(t@),
{
    if *t == "new".to_owned() {
        Some(Condition::New)
    } else if *t == "good".to_owned() {
        Some(Condition::Good)
    } else if *t == "bad".to_owned() {
        Some(Condition::Bad)
    } else if *t == "destroyed".to_owned() {
        Some(Condition::Destroyed)
    } else {
        None
    }
}

/// The condition that a text names, whatever the case of its letters.
pub fn parse_condition(s: &str) -> (r: Option<Condition>)
    ensures
        r == condition_named(lower_of(s@)),
{
    let lowered = lowercase(s);
    condition_from_lowered(&lowered)
}

/// The operations a caller can ask for.
#[derive(Clone, Copy, Debug, PartialEq, Eq, Structural)]
pub enum Operation {
    CreateOwner,
    CreateBag,
    UpdateBagPrice,
    GetOwner,
    GetBag,
    TransferBag,
}

/// A decoded request: an operation with its arguments.
#[derive(Clone, Copy, Debug, PartialEq, Eq, Structural)]
pub enum Request {
    CreateOwner { owner_id: u32 },
    CreateBag { owner_id: u32, bag_id: u32, price: u32, condition: Condition },
    UpdateBagPrice { bag_id: u32, price: u32 },
    GetOwner { owner_id: u32 },
    GetBag { bag_id: u32 },
    TransferBag { bag_id: u32, owner_id: u32 },
}

/// Why the arguments of a call could not be read.
#[derive(Clone, Copy, Debug, PartialEq, Eq, Structural)]
pub enum DecodeError {
    /// The host had no argument buffer to give.
    Unavailable,
    /// The buffer is not a JSON document.
    Malformed,
    /// A required member is absent or of the wrong type.
    MissingOrWrongType,
}

impl Operation {
    /// The members an operation's argument object must have, in order.
    pub open spec fn schema(self) -> Seq<Seq<char>> {
        match self {
            Operation::CreateOwner => seq!["owner_id"@],
            Operation::CreateBag => seq!["owner_id"@, "item_id"@, "price"@, "condition"@],
            Operation::UpdateBagPrice => seq!["item_id"@, "price"@],
            Operation::GetOwner => seq!["owner_id"@],
            Operation::GetBag => seq!["item_id"@],
            Operation::TransferBag => seq!["item_id"@, "owner_id"@],
        }
    }

    pub fn field_names(&self) -> (r: Vec<&'static str>)
        ensures
            r@.map_values(|k: &str| k@) == self.schema(),
    {
        let r = match self {
            Operation::CreateOwner => vec!["owner_id"],
            Operation::CreateBag => vec!["owner_id", "item_id", "price", "condition"],
            Operation::UpdateBagPrice => vec!["item_id", "price"],
            Operation::GetOwner => vec!["owner_id"],
            Operation::GetBag => vec!["item_id"],
            Operation::TransferBag => vec!["item_id", "owner_id"],
        };
        assert(r@.map_values(|k: &str| k@) =~= self.schema());
        r
    }
}

/// A member read as a 32-bit unsigned integer.
pub open spec fn unsigned32(f: FieldModel) -> Option<u32> {
    match f {
        FieldModel::Unsigned(n) => if n <= u32::MAX {
            Some(n as u32)
        } else {
            None
        },
        _ => None,
    }
}

/// A member read as a condition, whatever the case of its letters.
pub open spec fn condition_field(f: FieldModel) -> Option<Condition> {
    match f {
        FieldModel::Text(t) => condition_named(lower_of(t)),
        _ => None,
    }
}

/// The request that an operation's members, in schema order, make up.
pub open spec fn request_spec(op: Operation, fs: Seq<FieldModel>) -> Result<Request, DecodeError> {
    if fs.len() != op.schema().len() {
        Err(DecodeError::MissingOrWrongType)
    } else {
        match op {
            Operation::CreateOwner => match unsigned32(fs[0]) {
                Some(owner_id) => Ok(Request::CreateOwner { owner_id }),
                None => Err(DecodeError::MissingOrWrongType),
            },
            Operation::CreateBag => match (
                unsigned32(fs[0]),
                unsigned32(fs[1]),
                unsigned32(fs[2]),
                condition_field(fs[3]),
            ) {
                (Some(owner_id), Some(bag_id), Some(price), Some(condition)) => Ok(
                    Request::CreateBag { owner_id, bag_id, price, condition },
                ),
                _ => Err(DecodeError::MissingOrWrongType),
            },
            Operation::UpdateBagPrice => match (unsigned32(fs[0]), unsigned32(fs[1])) {
                (Some(bag_id), Some(price)) => Ok(Request::UpdateBagPrice { bag_id, price }),
                _ => Err(DecodeError::MissingOrWrongType),
            },
            Operation::GetOwner => match unsigned32(fs[0]) {
                Some(owner_id) => Ok(Request::GetOwner { owner_id }),
                None => Err(DecodeError::MissingOrWrongType),
            },
            Operation::GetBag => match unsigned32(fs[0]) {
                Some(bag_id) => Ok(Request::GetBag { bag_id }),
                None => Err(DecodeError::MissingOrWrongType),
            },
            Operation::TransferBag => match (unsigned32(fs[0]), unsigned32(fs[1])) {
                (Some(bag_id), Some(owner_id)) => Ok(Request::TransferBag { bag_id, owner_id }),
                _ => Err(DecodeError::MissingOrWrongType),
            },
        }
    }
}

/// The members of the document in a buffer, in the operation's schema order.
pub open spec fn schema_fields(op: Operation, v: Value) -> Seq<FieldModel> {
    op.schema().map_values(|k: Seq<char>| member_of(v, k))
}

/// What decoding an operation's argument buffer gives.
pub open spec fn decode_spec(op: Operation, args: Option<Seq<u8>>) -> Result<Request, DecodeError> {
    match args {
        None => Err(DecodeError::Unavailable),
        Some(b) => match json_of(b) {
            None => Err(DecodeError::Malformed),
            Some(v) => request_spec(op, schema_fields(op, v)),
        },
    }
}

pub open spec fn fields_view(fs: Seq<Field>) -> Seq<FieldModel> {
    fs.map_values(|f: Field| f@)
}

pub open spec fn args_view(args: &Option<Vec<u8>>) -> Option<Seq<u8>> {
    match args {
        Some(b) => Some(b@),
        None => None,
    }
}

/// A member as a 32-bit unsigned integer.
pub fn read_u32(f: &Field) -> (r: Option<u32>)
    ensures
        r == unsigned32(f@),
{
    match f {
        Field::Unsigned(n) => if *n <= u32::MAX as u64 {
            Some(*n as u32)
        } else {
            None
        },
        _ => None,
    }
}

/// A member as a condition, whatever the case of its letters.
pub fn read_condition(f: &Field) -> (r: Option<Condition>)
    ensures
        r == condition_field(f@),
{
    match f {
        Field::Text(s) => parse_condition(s.as_str()),
        _ => None,
    }
}

/// Builds the request of an operation from its members, in schema order.
pub fn request_from_fields(op: Operation, fs: &Vec<Field>) -> (r: Result<Request, DecodeError>)
    ensures
        r == request_spec(op, fields_view(fs@)),
{
    let n: usize = match op {
        Operation::CreateOwner | Operation::GetOwner | Operation::GetBag => 1,
        Operation::UpdateBagPrice | Operation::TransferBag => 2,
        Operation::CreateBag => 4,
    };
    if fs.len() != n {
        return Err(DecodeError::MissingOrWrongType);
    }
    let bad = Err(DecodeError::MissingOrWrongType);
    match op {
        Operation::CreateOwner => match read_u32(&fs[0]) {
            Some(owner_id) => Ok(Request::CreateOwner { owner_id }),
            None => bad,
        },
        Operation::CreateBag => match (
            read_u32(&fs[0]),
            read_u32(&fs[1]),
            read_u32(&fs[2]),
            read_condition(&fs[3]),
        ) {
            (Some(owner_id), Some(bag_id), Some(price), Some(condition)) => Ok(
                Request::CreateBag { owner_id, bag_id, price, condition },
            ),
            _ => bad,
        },
        Operation::UpdateBagPrice => match (read_u32(&fs[0]), read_u32(&fs[1])) {
            (Some(bag_id), Some(price)) => Ok(Request::UpdateBagPrice { bag_id, price }),
            _ => bad,
        },
        Operation::GetOwner => match read_u32(&fs[0]) {
            Some(owner_id) => Ok(Request::GetOwner { owner_id }),
            None => bad,
        },
        Operation::GetBag => match read_u32(&fs[0]) {
            Some(bag_id) => Ok(Request::GetBag { bag_id }),
            None => bad,
        },
        Operation::TransferBag => match (read_u32(&fs[0]), read_u32(&fs[1])) {
            (Some(bag_id), Some(owner_id)) => Ok(Request::TransferBag { bag_id, owner_id }),
            _ => bad,
        },
    }
}

/// Decodes an operation's argument buffer, `None` when the host had none:
/// it must be a JSON object with every member of the operation's schema.
pub fn decode(op: Operation, args: &Option<Vec<u8>>) -> (r: Result<Request, DecodeError>)
    ensures
        r == decode_spec(op, args_view(args)),
{
    let b = match args {
        None => return Err(DecodeError::Unavailable),
        Some(b) => b,
    };
    let v = match parse_json(b.as_slice()) {
        None => return Err(DecodeError::Malformed),
        Some(v) => v,
    };
    let names = op.field_names();
    let mut fs: Vec<Field> = Vec::new();
    let mut i: usize = 0;
    while i < names.len()
        invariant
            i <= names@.len(),
            schema_fields(op, v).len() == names@.len(),
            fs@.len() == i,
            names@.map_values(|k: &str| k@) == op.schema(),
            fields_view(fs@) == schema_fields(op, v).subrange(0, i as int),
        decreases names.len() - i,
    {
        let f = member(&v, names[i]);
        let ghost fv = f@;
        fs.push(f);
        proof {
            assert(names@.map_values(|k: &str| k@)[i as int] == names@[i as int]@);
            assert(schema_fields(op, v)[i as int] == member_of(v, op.schema()[i as int]));
            assert(fields_view(fs@)[i as int] == fv);
            assert(fields_view(fs@) =~= schema_fields(op, v).subrange(0, i + 1));
        }
        i = i + 1;
    }
    assert(fields_view(fs@) =~= schema_fields(op, v));
    request_from_fields(op, &fs)
}

pub open spec fn bytes_view(r: Option<Vec<u8>>) -> Option<Seq<u8>> {
    match r {
        Some(b) => Some(b@),
        None => None,
    }
}

/// The members of an owner's response object.
pub open spec fn owner_object(id: u32, bags: Seq<u32>) -> Seq<(Seq<char>, MemberModel)> {
    seq![("ownerID"@, MemberModel::Unsigned(id as u64)), ("items"@, MemberModel::List(bags))]
}

/// The members of a bag's response object.
pub open spec fn bag_object(b: Bag) -> Seq<(Seq<char>, MemberModel)> {
    seq![
        ("ID"@, MemberModel::Unsigned(b.id as u64)),
        ("price"@, MemberModel::Unsigned(b.price as u64)),
        ("ownerID"@, MemberModel::Unsigned(b.owner_id as u64)),
        ("condition"@, MemberModel::Text(condition_text(b.condition))),
    ]
}

/// The operation a request is for.
pub open spec fn request_op(r: Request) -> Operation {
    match r {
        Request::CreateOwner { .. } => Operation::CreateOwner,
        Request::CreateBag { .. } => Operation::CreateBag,
        Request::UpdateBagPrice { .. } => Operation::UpdateBagPrice,
        Request::GetOwner { .. } => Operation::GetOwner,
        Request::GetBag { .. } => Operation::GetBag,
        Request::TransferBag { .. } => Operation::TransferBag,
    }
}

pub open spec fn unsigned_member(n: u32) -> MemberModel {
    MemberModel::Unsigned(n as u64)
}

/// The argument values of a request, in its operation's schema order.
pub open spec fn request_values(r: Request) -> Seq<MemberModel> {
    match r {
        Request::CreateOwner { owner_id } => seq![unsigned_member(owner_id)],
        Request::CreateBag { owner_id, bag_id, price, condition } => seq![
            unsigned_member(owner_id),
            unsigned_member(bag_id),
            unsigned_member(price),
            MemberModel::Text(condition_text(condition)),
        ],
        Request::UpdateBagPrice { bag_id, price } => seq![
            unsigned_member(bag_id),
            unsigned_member(price),
        ],
        Request::GetOwner { owner_id } => seq![unsigned_member(owner_id)],
        Request::GetBag { bag_id } => seq![unsigned_member(bag_id)],
        Request::TransferBag { bag_id, owner_id } => seq![
            unsigned_member(bag_id),
            unsigned_member(owner_id),
        ],
    }
}

/// The argument object of a request: each schema name with its value.
pub open spec fn request_object(r: Request) -> Seq<(Seq<char>, MemberModel)> {
    request_op(r).schema().zip_with(request_values(r))
}

/// How a decoded member is written back: numbers as they were, texts in
/// lowercase. Members that never decode have no written form; an empty list
/// stands for it.
pub open spec fn written_form(f: FieldModel) -> MemberModel {
    match f {
        FieldModel::Unsigned(n) => MemberModel::Unsigned(n),
        FieldModel::Text(t) => MemberModel::Text(lower_of(t)),
        _ => MemberModel::List(Seq::empty()),
    }
}

/// Decoding an operation's members into a request and writing that request
/// back gives an object with the schema's members, each as it was decoded:
/// every number unchanged, and the condition in lowercase.
pub proof fn lemma_decode_then_encode(op: Operation, fs: Seq<FieldModel>, r: Request)
    requires
        request_spec(op, fs) == Ok::<Request, DecodeError>(r),
    ensures
        request_op(r) == op,
        request_object(r).len() == fs.len(),
        forall|i: int|
            0 <= i < fs.len() ==> (#[trigger] request_object(r)[i]).0 == op.schema()[i]
                && request_object(r)[i].1 == written_form(fs[i]),
{
    let vals = request_values(r);
    assert(vals.len() == fs.len());
    assert forall|i: int| 0 <= i < fs.len() implies #[trigger] vals[i] == written_form(fs[i]) by {
        if condition_field(fs[i]) is Some && op == Operation::CreateBag && i == 3 {
            let t = fs[i]->Text_0;
            let c = condition_named(lower_of(t)).unwrap();
            assert(condition_text(c) == lower_of(t));
        }
    }
    assert(request_object(r) =~= Seq::new(fs.len(), |i: int| (op.schema()[i], vals[i])));
}

/// A copy of a list of bag ids.
fn copy_ids(v: &Vec<u32>) -> (r: Vec<u32>)
    ensures
        r@ == v@,
{
    let mut r: Vec<u32> = Vec::new();
    let mut i: usize = 0;
    while i < v.len()
        invariant
            i <= v.len(),
            r@ == v@.subrange(0, i as int),
        decreases v.len() - i,
    {
        r.push(v[i]);
        i = i + 1;
    }
    assert(r@ =~= v@);
    r
}

/// The JSON text of an owner: `{"ownerID": id, "items": [ids]}`.
pub fn encode_owner(o: &Owner) -> (r: Option<Vec<u8>>)
    ensures
        bytes_view(r) == object_text_of(owner_object(o.id, o.bags@)),
{
    let members = vec![
        ("ownerID".to_owned(), Member::Unsigned(o.id as u64)),
        ("items".to_owned(), Member::List(copy_ids(&o.bags))),
    ];
    assert(members_view(members@) =~= owner_object(o.id, o.bags@));
    object_text(&members)
}

/// The JSON text of a bag: `{"ID", "price", "ownerID", "condition"}`.
pub fn encode_bag(b: &Bag) -> (r: Option<Vec<u8>>)
    ensures
        bytes_view(r) == object_text_of(bag_object(*b)),
{
    let members = vec![
        ("ID".to_owned(), Member::Unsigned(b.id as u64)),
        ("price".to_owned(), Member::Unsigned(b.price as u64)),
        ("ownerID".to_owned(), Member::Unsigned(b.owner_id as u64)),
        ("condition".to_owned(), Member::Text(condition_name(b.condition).to_owned())),
    ];
    assert(members_view(members@) =~= bag_object(*b));
    object_text(&members)
}

/// A named number member.
fn unsigned_entry(name: &str, n: u32) -> (r: (String, Member))
    ensures
        r.0@ == name@,
        r.1@ == unsigned_member(n),
{
    (name.to_owned(), Member::Unsigned(n as u64))
}

/// The JSON text of a request's argument object.
pub fn encode_request(req: &Request) -> (r: Option<Vec<u8>>)
    ensures
        bytes_view(r) == object_text_of(request_object(*req)),
{
    let members: Vec<(String, Member)> = match *req {
        Request::CreateOwner { owner_id } => vec![unsigned_entry("owner_id", owner_id)],
        Request::CreateBag { owner_id, bag_id, price, condition } => vec![
            unsigned_entry("owner_id", owner_id),
            unsigned_entry("item_id", bag_id),
            unsigned_entry("price", price),
            ("condition".to_owned(), Member::Text(condition_name(condition).to_owned())),
        ],
        Request::UpdateBagPrice { bag_id, price } => vec![
            unsigned_entry("item_id", bag_id),
            unsigned_entry("price", price),
        ],
        Request::GetOwner { owner_id } => vec![unsigned_entry("owner_id", owner_id)],
        Request::GetBag { bag_id } => vec![unsigned_entry("item_id", bag_id)],
        Request::TransferBag { bag_id, owner_id } => vec![
            unsigned_entry("item_id", bag_id),
            unsigned_entry("owner_id", owner_id),
        ],
    };
    assert(members_view(members@) =~= request_object(*req));
    object_text(&members)
}

pub open spec fn members_view(ms: Seq<(String, Member)>) -> Seq<(Seq<char>, MemberModel)> {
    ms.map_values(|m: (String, Member)| (m.0@, m.1@))
}

} // verus!
