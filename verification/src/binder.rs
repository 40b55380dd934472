//! The schema binder: from a JSON document to a player state, in a
//! permissive or a strict mode.
//!
//! Both modes ask the same of the declared fields: each must be present and
//! of the declared shape. They differ in what they make of the rest. The
//! strict mode is a closed-world check: a document with any top-level field
//! beyond `equipment` and `location` is rejected, and only the names of
//! those fields pass into the error. The permissive mode admits such
//! fields, and reads two of them, `isAdmin` and `gold`, into the binding.

use crate::json::{json_of, json_parsed, lookup, member_of, names_of, parse_value, Json};
use crate::schema::{
    Binding, BindingView, Equipment, Location, LocationView, Mode, PlayerState, PlayerStateView,
    UndeclaredAttributes, ITEM_SLOTS,
};
use vstd::prelude::*;

verus! {

/// A field of the schema. `IsAdmin` and `Gold` belong to the permissive
/// schema only.
#[derive(Debug, Clone, Copy, PartialEq, Eq, Structural)]
pub enum Field {
    Equipment,
    Items,
    Location,
    X,
    Y,
    Zone,
    IsAdmin,
    Gold,
}

/// How a document fails the schema.
#[derive(Debug, Clone, Copy, PartialEq, Eq, Structural)]
pub enum Mismatch {
    /// The document itself is not an object.
    NotAnObject,
    /// A declared field is absent.
    Missing(Field),
    /// A field is present but not of the declared shape.
    Invalid(Field),
}

/// Why a binding failed.
#[derive(Debug, Clone, PartialEq, Eq)]
pub enum BindError {
    /// The bytes are not a JSON document; the text is the parser's.
    Malformed(String),
    /// A declared field is missing or of the wrong shape.
    SchemaMismatch(Mismatch),
    /// Strict mode only: the names of the top-level fields beyond the
    /// declared ones, in document order.
    UnexpectedFields(Vec<String>),
}

/// The model of a `BindError`.
pub enum BindErrorView {
    Malformed(Seq<char>),
    SchemaMismatch(Mismatch),
    UnexpectedFields(Seq<Seq<char>>),
}

/// The character sequences of a sequence of strings.
pub open spec fn texts(strings: Seq<String>) -> Seq<Seq<char>> {
    Seq::new(strings.len(), |i: int| strings[i]@)
}

impl View for BindError {
    type V = BindErrorView;

    open spec fn view(&self) -> BindErrorView {
        match self {
            BindError::Malformed(text) => BindErrorView::Malformed(text@),
            BindError::SchemaMismatch(mismatch) => BindErrorView::SchemaMismatch(*mismatch),
            BindError::UnexpectedFields(names) => BindErrorView::UnexpectedFields(texts(names@)),
        }
    }
}

/// The document as an item identifier: an integer of 32 bits without sign.
pub open spec fn as_u32(doc: Json) -> Option<u32> {
    match doc {
        Json::Integer(n) if 0 <= n <= u32::MAX => Some(n as u32),
        _ => None,
    }
}

/// The document as a coordinate: an integer of 32 bits with sign.
pub open spec fn as_i32(doc: Json) -> Option<i32> {
    match doc {
        Json::Integer(n) if i32::MIN <= n <= i32::MAX => Some(n as i32),
        _ => None,
    }
}

/// The document as the items of an equipment: an array of exactly five
/// item identifiers.
pub open spec fn items_of(doc: Json) -> Option<Seq<u32>> {
    if doc is List && doc->List_0.len() == ITEM_SLOTS && (forall|i: int|
        0 <= i < ITEM_SLOTS ==> as_u32(#[trigger] doc->List_0[i]) is Some) {
        Some(Seq::new(ITEM_SLOTS as nat, |i: int| as_u32(doc->List_0[i]).unwrap()))
    } else {
        None
    }
}

/// The declared field `equipment` of a document.
pub open spec fn equipment_of(doc: Json) -> Result<Seq<u32>, Mismatch> {
    match doc.member("equipment"@) {
        None => Err(Mismatch::Missing(Field::Equipment)),
        Some(equipment) => if !(equipment is Record) {
            Err(Mismatch::Invalid(Field::Equipment))
        } else {
            match equipment.member("items"@) {
                None => Err(Mismatch::Missing(Field::Items)),
                Some(items) => match items_of(items) {
                    None => Err(Mismatch::Invalid(Field::Items)),
                    Some(identifiers) => Ok(identifiers),
                },
            }
        },
    }
}

/// The coordinate called `name` of a location.
pub open spec fn coordinate_of(location: Json, name: Seq<char>, field: Field) -> Result<
    i32,
    Mismatch,
> {
    match location.member(name) {
        None => Err(Mismatch::Missing(field)),
        Some(value) => match as_i32(value) {
            None => Err(Mismatch::Invalid(field)),
            Some(n) => Ok(n),
        },
    }
}

/// The zone of a location.
pub open spec fn zone_of(location: Json) -> Result<Seq<char>, Mismatch> {
    match location.member("zone"@) {
        None => Err(Mismatch::Missing(Field::Zone)),
        Some(Json::Text(zone)) => Ok(zone),
        Some(_) => Err(Mismatch::Invalid(Field::Zone)),
    }
}

/// The declared field `location` of a document.
pub open spec fn location_of(doc: Json) -> Result<LocationView, Mismatch> {
    match doc.member("location"@) {
        None => Err(Mismatch::Missing(Field::Location)),
        Some(location) => if !(location is Record) {
            Err(Mismatch::Invalid(Field::Location))
        } else {
            match coordinate_of(location, "x"@, Field::X) {
                Err(mismatch) => Err(mismatch),
                Ok(x) => match coordinate_of(location, "y"@, Field::Y) {
                    Err(mismatch) => Err(mismatch),
                    Ok(y) => match zone_of(location) {
                        Err(mismatch) => Err(mismatch),
                        Ok(zone) => Ok(LocationView { x, y, zone }),
                    },
                },
            }
        },
    }
}

/// The declared fields of a document, checked in schema order: the
/// document is an object, then `equipment`, then `location`.
pub open spec fn declared_of(doc: Json) -> Result<PlayerStateView, Mismatch> {
    if !(doc is Record) {
        Err(Mismatch::NotAnObject)
    } else {
        match equipment_of(doc) {
            Err(mismatch) => Err(mismatch),
            Ok(items) => match location_of(doc) {
                Err(mismatch) => Err(mismatch),
                Ok(location) => Ok(PlayerStateView { items, location }),
            },
        }
    }
}

/// The optional field `isAdmin`: unset where it is absent or null.
pub open spec fn is_admin_of(doc: Json) -> Result<Option<bool>, Mismatch> {
    match doc.member("isAdmin"@) {
        None => Ok(None),
        Some(Json::Null) => Ok(None),
        Some(Json::Bool(flag)) => Ok(Some(flag)),
        Some(_) => Err(Mismatch::Invalid(Field::IsAdmin)),
    }
}

/// The optional field `gold`: unset where it is absent or null.
pub open spec fn gold_of(doc: Json) -> Result<Option<u32>, Mismatch> {
    match doc.member("gold"@) {
        None => Ok(None),
        Some(Json::Null) => Ok(None),
        Some(value) => match as_u32(value) {
            None => Err(Mismatch::Invalid(Field::Gold)),
            Some(amount) => Ok(Some(amount)),
        },
    }
}

/// The two optional fields of the permissive schema, `isAdmin` first.
pub open spec fn undeclared_of(doc: Json) -> Result<UndeclaredAttributes, Mismatch> {
    match is_admin_of(doc) {
        Err(mismatch) => Err(mismatch),
        Ok(is_admin) => match gold_of(doc) {
            Err(mismatch) => Err(mismatch),
            Ok(gold) => Ok(UndeclaredAttributes { is_admin, gold }),
        },
    }
}

/// Whether `name` is a top-level field of the declared schema.
pub open spec fn is_declared(name: Seq<char>) -> bool {
    name == "equipment"@ || name == "location"@
}

/// Those of `names` that the declared schema does not hold, in order.
pub open spec fn unexpected(names: Seq<Seq<char>>) -> Seq<Seq<char>>
    decreases names.len(),
{
    if names.len() == 0 {
        Seq::empty()
    } else if is_declared(names.last()) {
        unexpected(names.drop_last())
    } else {
        unexpected(names.drop_last()).push(names.last())
    }
}

/// What binding a document yields.
///
/// In either mode the declared fields come first: a document that fails
/// them is a schema mismatch. After that the strict mode rejects the
/// document if and only if it has a field beyond the declared ones, and
/// binds no optional field; the permissive mode reads the two optional
/// fields and ignores every other.
pub open spec fn bound(doc: Json, mode: Mode) -> Result<BindingView, BindErrorView> {
    match declared_of(doc) {
        Err(mismatch) => Err(BindErrorView::SchemaMismatch(mismatch)),
        Ok(state) => match mode {
            Mode::Strict => if unexpected(doc.names()).len() > 0 {
                Err(BindErrorView::UnexpectedFields(unexpected(doc.names())))
            } else {
                Ok(BindingView { state, undeclared: UndeclaredAttributes::none() })
            },
            Mode::Permissive => match undeclared_of(doc) {
                Err(mismatch) => Err(BindErrorView::SchemaMismatch(mismatch)),
                Ok(undeclared) => Ok(BindingView { state, undeclared }),
            },
        },
    }
}

/// What binding a byte sequence yields: bytes that are no JSON document
/// are malformed, in either mode.
pub open spec fn bound_bytes(bytes: Seq<u8>, mode: Mode) -> Result<BindingView, BindErrorView> {
    match json_parsed(bytes) {
        Err(text) => Err(BindErrorView::Malformed(text)),
        Ok(doc) => bound(doc, mode),
    }
}

/// The model of the result of a binding.
pub open spec fn result_view(result: Result<Binding, BindError>) -> Result<
    BindingView,
    BindErrorView,
> {
    match result {
        Ok(binding) => Ok(binding@),
        Err(error) => Err(error@),
    }
}

/// Reads an item identifier.
fn read_u32(value: &serde_json::Value) -> (r: Option<u32>)
    ensures
        r == as_u32(json_of(*value)),
{
    match value.as_u64() {
        Some(n) => if n <= 0xFFFF_FFFF {
            Some(n as u32)
        } else {
            None
        },
        None => None,
    }
}

/// Reads a coordinate.
fn read_i32(value: &serde_json::Value) -> (r: Option<i32>)
    ensures
        r == as_i32(json_of(*value)),
{
    match value.as_i64() {
        Some(n) => if -0x8000_0000 <= n && n <= 0x7FFF_FFFF {
            Some(n as i32)
        } else {
            None
        },
        None => None,
    }
}

/// Reads the items of an equipment.
fn read_items(value: &serde_json::Value) -> (r: Option<[u32; 5]>)
    ensures
        match r {
            Some(items) => items_of(json_of(*value)) == Some(items@),
            None => items_of(json_of(*value)) is None,
        },
{
    let elements = match value.as_array() {
        Some(elements) => elements,
        None => {
            return None;
        },
    };
    if elements.len() != ITEM_SLOTS {
        return None;
    }
    let ghost list = json_of(*value)->List_0;
    let mut items: [u32; 5] = [0u32; 5];
    let mut i: usize = 0;
    while i < ITEM_SLOTS
        invariant
            i <= ITEM_SLOTS,
            elements@.len() == ITEM_SLOTS,
            json_of(*value) == Json::List(list),
            list.len() == ITEM_SLOTS,
            forall|j: int| 0 <= j < ITEM_SLOTS ==> #[trigger] list[j] == json_of(elements@[j]),
            forall|j: int| 0 <= j < i ==> as_u32(#[trigger] list[j]) == Some(items@[j]),
        decreases ITEM_SLOTS - i,
    {
        match read_u32(&elements[i]) {
            Some(n) => {
                items[i] = n;
            },
            None => {
                assert(as_u32(list[i as int]) is None);
                return None;
            },
        }
        i += 1;
    }
    Some(items)
}

/// Reads the declared field `equipment`.
fn read_equipment(doc: &serde_json::Value) -> (r: Result<Equipment, Mismatch>)
    ensures
        match r {
            Ok(equipment) => equipment_of(json_of(*doc)) == Ok::<Seq<u32>, Mismatch>(
                equipment.items@,
            ),
            Err(mismatch) => equipment_of(json_of(*doc)) == Err::<Seq<u32>, Mismatch>(mismatch),
        },
{
    let equipment = match member_of(doc, "equipment") {
        Some(equipment) => equipment,
        None => {
            return Err(Mismatch::Missing(Field::Equipment));
        },
    };
    if !equipment.is_object() {
        return Err(Mismatch::Invalid(Field::Equipment));
    }
    let items = match member_of(equipment, "items") {
        Some(items) => items,
        None => {
            return Err(Mismatch::Missing(Field::Items));
        },
    };
    match read_items(items) {
        Some(items) => Ok(Equipment { items }),
        None => Err(Mismatch::Invalid(Field::Items)),
    }
}

/// Reads the coordinate called `name` of a location.
fn read_coordinate(location: &serde_json::Value, name: &str, field: Field) -> (r: Result<
    i32,
    Mismatch,
>)
    ensures
        r == coordinate_of(json_of(*location), name@, field),
{
    match member_of(location, name) {
        None => Err(Mismatch::Missing(field)),
        Some(value) => match read_i32(value) {
            None => Err(Mismatch::Invalid(field)),
            Some(n) => Ok(n),
        },
    }
}

/// Reads the zone of a location.
fn read_zone(location: &serde_json::Value) -> (r: Result<String, Mismatch>)
    ensures
        match r {
            Ok(zone) => zone_of(json_of(*location)) == Ok::<Seq<char>, Mismatch>(zone@),
            Err(mismatch) => zone_of(json_of(*location)) == Err::<Seq<char>, Mismatch>(mismatch),
        },
{
    match member_of(location, "zone") {
        None => Err(Mismatch::Missing(Field::Zone)),
        Some(value) => match value.as_str() {
            None => Err(Mismatch::Invalid(Field::Zone)),
            Some(zone) => Ok(String::from_str(zone)),
        },
    }
}

/// Reads the declared field `location`.
fn read_location(doc: &serde_json::Value) -> (r: Result<Location, Mismatch>)
    ensures
        match r {
            Ok(location) => location_of(json_of(*doc)) == Ok::<LocationView, Mismatch>(location@),
            Err(mismatch) => location_of(json_of(*doc)) == Err::<LocationView, Mismatch>(mismatch),
        },
{
    let location = match member_of(doc, "location") {
        Some(location) => location,
        None => {
            return Err(Mismatch::Missing(Field::Location));
        },
    };
    if !location.is_object() {
        return Err(Mismatch::Invalid(Field::Location));
    }
    let x = match read_coordinate(location, "x", Field::X) {
        Ok(x) => x,
        Err(mismatch) => {
            return Err(mismatch);
        },
    };
    let y = match read_coordinate(location, "y", Field::Y) {
        Ok(y) => y,
        Err(mismatch) => {
            return Err(mismatch);
        },
    };
    match read_zone(location) {
        Ok(zone) => Ok(Location { x, y, zone }),
        Err(mismatch) => Err(mismatch),
    }
}

/// Reads the declared fields of a document: the first two steps of a
/// binding, the same in both modes.
pub fn read_declared(doc: &serde_json::Value) -> (r: Result<PlayerState, Mismatch>)
    ensures
        match r {
            Ok(state) => declared_of(json_of(*doc)) == Ok::<PlayerStateView, Mismatch>(state@),
            Err(mismatch) => declared_of(json_of(*doc)) == Err::<PlayerStateView, Mismatch>(
                mismatch,
            ),
        },
{
    if !doc.is_object() {
        return Err(Mismatch::NotAnObject);
    }
    let equipment = match read_equipment(doc) {
        Ok(equipment) => equipment,
        Err(mismatch) => {
            return Err(mismatch);
        },
    };
    match read_location(doc) {
        Ok(location) => Ok(PlayerState { equipment, location }),
        Err(mismatch) => Err(mismatch),
    }
}

/// Reads the two optional fields of the permissive schema.
pub fn read_undeclared(doc: &serde_json::Value) -> (r: Result<UndeclaredAttributes, Mismatch>)
    ensures
        r == undeclared_of(json_of(*doc)),
{
    let is_admin = match member_of(doc, "isAdmin") {
        None => None,
        Some(value) => if value.is_null() {
            None
        } else {
            match value.as_bool() {
                Some(flag) => Some(flag),
                None => {
                    return Err(Mismatch::Invalid(Field::IsAdmin));
                },
            }
        },
    };
    let gold = match member_of(doc, "gold") {
        None => None,
        Some(value) => if value.is_null() {
            None
        } else {
            match read_u32(value) {
                Some(amount) => Some(amount),
                None => {
                    return Err(Mismatch::Invalid(Field::Gold));
                },
            }
        },
    };
    Ok(UndeclaredAttributes { is_admin, gold })
}

/// Collects the names of the top-level fields beyond the declared ones,
/// in document order. Only names are read: the values of such fields are
/// never looked at.
pub fn unexpected_fields(doc: &serde_json::Value) -> (r: Vec<String>)
    ensures
        texts(r@) == unexpected(json_of(*doc).names()),
{
    let names = match names_of(doc) {
        Some(names) => names,
        None => {
            return Vec::new();
        },
    };
    let equipment = String::from_str("equipment");
    let location = String::from_str("location");
    let ghost all = json_of(*doc).names();
    let mut extra: Vec<String> = Vec::new();
    let mut i: usize = 0;
    while i < names.len()
        invariant
            i <= names.len(),
            all == texts(names@),
            equipment@ == "equipment"@,
            location@ == "location"@,
            texts(extra@) == unexpected(all.take(i as int)),
        decreases names.len() - i,
    {
        assert(all.take(i + 1).drop_last() =~= all.take(i as int));
        if names[i] != equipment && names[i] != location {
            extra.push(names[i].clone());
        }
        i += 1;
    }
    assert(all.take(i as int) =~= all);
    extra
}

/// Binds a parsed document to the schema.
///
/// The result is exactly what `bound` says of the document: a schema
/// mismatch where a declared field is missing or misshapen; in strict
/// mode `UnexpectedFields` with the names of all fields beyond the
/// declared ones if and only if there is such a field; the binding
/// otherwise.
pub fn bind_document(doc: &serde_json::Value, mode: Mode) -> (r: Result<Binding, BindError>)
    ensures
        result_view(r) == bound(json_of(*doc), mode),
        mode == Mode::Strict && r is Ok ==> r.unwrap().undeclared == UndeclaredAttributes::none(),
{
    let state = match read_declared(doc) {
        Ok(state) => state,
        Err(mismatch) => {
            return Err(BindError::SchemaMismatch(mismatch));
        },
    };
    match mode {
        Mode::Strict => {
            let extra = unexpected_fields(doc);
            if extra.len() > 0 {
                Err(BindError::UnexpectedFields(extra))
            } else {
                Ok(Binding { state, undeclared: UndeclaredAttributes { is_admin: None, gold: None } })
            }
        },
        Mode::Permissive => match read_undeclared(doc) {
            Ok(undeclared) => Ok(Binding { state, undeclared }),
            Err(mismatch) => Err(BindError::SchemaMismatch(mismatch)),
        },
    }
}

/// Binds a byte sequence to the schema: parses it as JSON, then binds the
/// document.
///
/// Bytes that are no JSON document yield `Malformed` with the parser's
/// text, in either mode; any other result is that of `bind_document`.
pub fn bind(bytes: &[u8], mode: Mode) -> (r: Result<Binding, BindError>)
    ensures
        result_view(r) == bound_bytes(bytes@, mode),
{
    match parse_value(bytes) {
        Ok(doc) => bind_document(&doc, mode),
        Err(text) => Err(BindError::Malformed(text)),
    }
}

/// The document that holds exactly the declared fields of `state`, each
/// with the value that the state gives it.
pub open spec fn document_of(state: PlayerStateView) -> Json {
    Json::Record(
        seq![
            (
                "equipment"@,
                Json::Record(
                    seq![
                        (
                            "items"@,
                            Json::List(
                                Seq::new(
                                    state.items.len(),
                                    |i: int| Json::Integer(state.items[i] as int),
                                ),
                            ),
                        ),
                    ],
                ),
            ),
            (
                "location"@,
                Json::Record(
                    seq![
                        ("x"@, Json::Integer(state.location.x as int)),
                        ("y"@, Json::Integer(state.location.y as int)),
                        ("zone"@, Json::Text(state.location.zone)),
                    ],
                ),
            ),
        ],
    )
}

/// Whether a document has a top-level field beyond the declared ones.
pub open spec fn has_unexpected_field(doc: Json) -> bool {
    exists|i: int| 0 <= i < doc.names().len() && !is_declared(#[trigger] doc.names()[i])
}

/// A name that the declared schema does not hold is among the unexpected
/// ones.
proof fn lemma_unexpected_holds(names: Seq<Seq<char>>, i: int)
    requires
        0 <= i < names.len(),
        !is_declared(names[i]),
    ensures
        unexpected(names).contains(names[i]),
        unexpected(names).len() > 0,
    decreases names.len(),
{
    if i == names.len() - 1 {
        let rest = unexpected(names.drop_last());
        assert(rest.push(names.last())[rest.len() as int] == names[i]);
    } else {
        lemma_unexpected_holds(names.drop_last(), i);
        let rest = unexpected(names.drop_last());
        let at = choose|k: int| 0 <= k < rest.len() && rest[k] == names[i];
        if !is_declared(names.last()) {
            assert(rest.push(names.last())[at] == names[i]);
        }
    }
}

/// Where every name is declared, none is unexpected.
proof fn lemma_unexpected_empty(names: Seq<Seq<char>>)
    requires
        forall|i: int| 0 <= i < names.len() ==> is_declared(#[trigger] names[i]),
    ensures
        unexpected(names).len() == 0,
    decreases names.len(),
{
    if names.len() > 0 {
        lemma_unexpected_empty(names.drop_last());
    }
}

/// Closure. For every document whose declared fields are valid: the
/// strict mode accepts it if and only if it has no field beyond the
/// declared ones, and otherwise fails with `UnexpectedFields`, which
/// names each such field; the permissive mode accepts it whatever fields
/// it has beyond the declared ones, provided that `isAdmin` and `gold`,
/// where present, have the shape that the permissive schema declares.
pub proof fn lemma_closure(doc: Json)
    requires
        declared_of(doc) is Ok,
    ensures
        has_unexpected_field(doc) ==> bound(doc, Mode::Strict) == Err::<
            BindingView,
            BindErrorView,
        >(BindErrorView::UnexpectedFields(unexpected(doc.names()))),
        has_unexpected_field(doc) ==> forall|i: int|
            0 <= i < doc.names().len() && !is_declared(#[trigger] doc.names()[i]) ==> unexpected(
                doc.names(),
            ).contains(doc.names()[i]),
        !has_unexpected_field(doc) ==> bound(doc, Mode::Strict) == Ok::<
            BindingView,
            BindErrorView,
        >(
            BindingView {
                state: declared_of(doc)->Ok_0,
                undeclared: UndeclaredAttributes::none(),
            },
        ),
        undeclared_of(doc) is Ok ==> bound(doc, Mode::Permissive) == Ok::<
            BindingView,
            BindErrorView,
        >(BindingView { state: declared_of(doc)->Ok_0, undeclared: undeclared_of(doc)->Ok_0 }),
{
    let names = doc.names();
    if has_unexpected_field(doc) {
        let witness = choose|i: int| 0 <= i < names.len() && !is_declared(#[trigger] names[i]);
        lemma_unexpected_holds(names, witness);
        assert forall|i: int| 0 <= i < names.len() && !is_declared(
            #[trigger] names[i],
        ) implies unexpected(names).contains(names[i]) by {
            lemma_unexpected_holds(names, i);
        }
    } else {
        lemma_unexpected_empty(names);
    }
}

/// A member that `lookup` finds bears the name that was asked for.
proof fn lemma_lookup_is_named(members: Seq<(Seq<char>, Json)>, name: Seq<char>)
    requires
        lookup(members, name) is Some,
    ensures
        exists|i: int| 0 <= i < members.len() && (#[trigger] members[i]).0 == name,
    decreases members.len(),
{
    if members[0].0 != name {
        let rest = members.drop_first();
        lemma_lookup_is_named(rest, name);
        let at = choose|i: int| 0 <= i < rest.len() && (#[trigger] rest[i]).0 == name;
        assert(members[at + 1].0 == name);
    }
}

/// A document without unexpected fields has no member of an undeclared
/// name.
proof fn lemma_closed_document_lacks(doc: Json, name: Seq<char>)
    requires
        unexpected(doc.names()).len() == 0,
        !is_declared(name),
    ensures
        doc.member(name) is None,
{
    if doc.member(name) is Some {
        let members = doc->Record_0;
        lemma_lookup_is_named(members, name);
        let at = choose|i: int| 0 <= i < members.len() && (#[trigger] members[i]).0 == name;
        assert(doc.names()[at] == name);
        lemma_unexpected_holds(doc.names(), at);
    }
}

/// The strict mode only narrows the permissive one. Whatever binds in
/// strict mode binds in permissive mode too, to the same state and with
/// no optional field set.
pub proof fn lemma_strict_binding_is_also_permissive(doc: Json)
    requires
        bound(doc, Mode::Strict) is Ok,
    ensures
        bound(doc, Mode::Permissive) == bound(doc, Mode::Strict),
{
    reveal_strlit("equipment");
    reveal_strlit("location");
    reveal_strlit("isAdmin");
    reveal_strlit("gold");
    assert("isAdmin"@.len() == 7 && "gold"@.len() == 4);
    lemma_closed_document_lacks(doc, "isAdmin"@);
    lemma_closed_document_lacks(doc, "gold"@);
}

/// Whether two documents differ at most in the values of undeclared
/// fields: both are objects or neither is, they have the same field
/// names in the same order, and the same values in the declared fields.
pub open spec fn alike_but_for_undeclared_values(first: Json, second: Json) -> bool {
    &&& first is Record <==> second is Record
    &&& first.names() == second.names()
    &&& first.member("equipment"@) == second.member("equipment"@)
    &&& first.member("location"@) == second.member("location"@)
}

/// Strict binding sees no value of an undeclared field. Two documents
/// that differ at most in such values bind alike in strict mode: to the
/// same state, or with the same error.
pub proof fn lemma_strict_binding_ignores_undeclared_values(first: Json, second: Json)
    requires
        alike_but_for_undeclared_values(first, second),
    ensures
        bound(first, Mode::Strict) == bound(second, Mode::Strict),
{
}

/// Round trip. The document of a state binds in strict mode to that very
/// state, with no optional field set.
pub proof fn lemma_document_binds_to_its_state(state: PlayerStateView)
    requires
        state.items.len() == ITEM_SLOTS,
    ensures
        bound(document_of(state), Mode::Strict) == Ok::<BindingView, BindErrorView>(
            BindingView { state, undeclared: UndeclaredAttributes::none() },
        ),
        bound(document_of(state), Mode::Permissive) == Ok::<BindingView, BindErrorView>(
            BindingView { state, undeclared: UndeclaredAttributes::none() },
        ),
{
    reveal_strlit("equipment");
    reveal_strlit("location");
    reveal_strlit("items");
    reveal_strlit("x");
    reveal_strlit("y");
    reveal_strlit("zone");
    reveal_strlit("isAdmin");
    reveal_strlit("gold");
    reveal_with_fuel(lookup, 4);
    let doc = document_of(state);
    assert("equipment"@.len() != "location"@.len());
    assert("x"@[0] != "y"@[0]);
    let list = doc->Record_0[0].1->Record_0[0].1;
    assert forall|i: int| 0 <= i < ITEM_SLOTS implies as_u32(#[trigger] list->List_0[i]) == Some(
        state.items[i],
    ) by {}
    assert(items_of(list)->Some_0 =~= state.items);
    assert(equipment_of(doc) == Ok::<Seq<u32>, Mismatch>(state.items));
    assert(location_of(doc) == Ok::<LocationView, Mismatch>(state.location));
    lemma_unexpected_empty(doc.names());
}

} // verus!
