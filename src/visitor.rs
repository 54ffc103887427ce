//! A construction session: the operations that build fields and types from
//! earlier handles, assemble a schema, and extract it once.

use vstd::prelude::*;

use crate::arena::HandleArena;
use crate::element::{
    field_error_at, field_fails_at, fields_resolve, first_field_failure, resolved_fields, schema_fields,
    struct_payload, type_of, SchemaElement,
};
use crate::error::SchemaError;
use crate::schema::{
    decimal_ok, metadata_of, ArrayType, DataType, DecimalType, FieldMetadata, MapType, PrimitiveType,
    StructField, StructType,
};
use delta_kernel::schema::MetadataValue;

verus! {

/// The elements of one construction session, each reachable through its handle.
pub struct KernelSchemaVisitorState {
    elements: HandleArena<SchemaElement>,
    extracted: bool,
}

impl KernelSchemaVisitorState {
    /// The live elements, by handle.
    pub closed spec fn elements(&self) -> Map<usize, SchemaElement> {
        self.elements.live()
    }

    /// The handle that the next new element gets.
    pub closed spec fn next_handle(&self) -> usize {
        self.elements.next_handle()
    }

    /// Whether the session's schema was extracted, which ends the session.
    pub closed spec fn is_closed(&self) -> bool {
        self.extracted
    }

    pub closed spec fn wf(&self) -> bool {
        self.elements.wf()
    }

    /// Another handle can be issued.
    pub open spec fn has_room(&self) -> bool {
        self.next_handle() < usize::MAX
    }

    /// Handles are never 0, and every live one was issued before the next.
    pub proof fn lemma_wf(&self)
        requires
            self.wf(),
        ensures
            1 <= self.next_handle(),
            forall|h: usize| #[trigger] self.elements().contains_key(h) ==> 1 <= h < self.next_handle(),
    {
        self.elements.lemma_wf();
    }

    /// A session with no elements.
    pub fn new() -> (s: Self)
        ensures
            s.wf(),
            s.elements() == Map::<usize, SchemaElement>::empty(),
            s.next_handle() == 1,
            !s.is_closed(),
    {
        KernelSchemaVisitorState { elements: HandleArena::new(), extracted: false }
    }

    /// Whether another handle can be issued.
    pub fn can_insert(&self) -> (r: bool)
        ensures
            r == self.has_room(),
    {
        self.elements.has_room()
    }

    /// Takes out the fields under `ids`, in order, or nothing at all if one of
    /// them does not resolve to a field.
    fn take_fields(&mut self, ids: &[usize]) -> (r: Result<Vec<StructField>, SchemaError>)
        requires
            old(self).wf(),
        ensures
            r is Ok <==> fields_resolve(old(self).elements(), ids@),
            r matches Ok(fs) ==> {
                &&& final(self).wf()
                &&& fs@ == resolved_fields(old(self).elements(), ids@)
                &&& final(self).elements() == old(self).elements().remove_keys(ids@.to_set())
                &&& final(self).next_handle() == old(self).next_handle()
                &&& final(self).is_closed() == old(self).is_closed()
            },
            r matches Err(e) ==> {
                &&& *final(self) == *old(self)
                &&& exists|i: int|
                    first_field_failure(old(self).elements(), ids@, i) && e == field_error_at(
                        old(self).elements(),
                        ids@,
                        i,
                    )
            },
    {
        let ghost m = self.elements();
        let n = ids.len();
        let mut i: usize = 0;
        while i < n
            invariant
                n == ids@.len(),
                0 <= i <= n,
                self.elements() == m,
                forall|j: int| 0 <= j < i ==> !#[trigger] field_fails_at(m, ids@, j),
            decreases n - i,
        {
            let h = ids[i];
            let mut repeated = false;
            let mut j: usize = 0;
            while j < i
                invariant
                    n == ids@.len(),
                    0 <= j <= i < n,
                    h == ids@[i as int],
                    repeated == ids@.take(j as int).contains(h),
                decreases i - j,
            {
                assert(ids@.take(j + 1) =~= ids@.take(j as int).push(ids@[j as int]));
                proof {
                    lemma_push_contains(ids@.take(j as int), ids@[j as int]);
                }
                if ids[j] == h {
                    repeated = true;
                }
                j = j + 1;
            }
            if repeated || !self.elements.is_live(h) {
                assert(first_field_failure(m, ids@, i as int));
                return Err(SchemaError::UnknownHandle(h));
            }
            match self.elements.peek(h) {
                Some(SchemaElement::Field(_)) => {},
                _ => {
                    assert(first_field_failure(m, ids@, i as int));
                    return Err(SchemaError::WrongKind(h));
                },
            }
            i = i + 1;
        }
        let mut fields: Vec<StructField> = Vec::new();
        let mut i: usize = 0;
        while i < n
            invariant
                n == ids@.len(),
                0 <= i <= n,
                self.wf(),
                fields_resolve(m, ids@),
                self.elements() == m.remove_keys(ids@.take(i as int).to_set()),
                fields@ == resolved_fields(m, ids@.take(i as int)),
                self.next_handle() == old(self).next_handle(),
                self.is_closed() == old(self).is_closed(),
            decreases n - i,
        {
            let h = ids[i];
            assert(!field_fails_at(m, ids@, i as int));
            assert(ids@.take(i + 1) =~= ids@.take(i as int).push(h));
            proof {
                lemma_push_contains(ids@.take(i as int), h);
            }
            match self.elements.take(h) {
                Some(SchemaElement::Field(f)) => {
                    fields.push(f);
                },
                _ => {
                    assert(false);
                },
            }
            assert(self.elements() =~= m.remove_keys(ids@.take(i + 1).to_set()));
            assert(fields@ =~= resolved_fields(m, ids@.take(i + 1)));
            i = i + 1;
        }
        assert(ids@.take(n as int) =~= ids@);
        Ok(fields)
    }
}

/// What a sequence holds after a push.
proof fn lemma_push_contains(s: Seq<usize>, x: usize)
    ensures
        forall|y: usize| #[trigger] s.push(x).contains(y) <==> (s.contains(y) || y == x),
{
    assert forall|y: usize| #[trigger] s.push(x).contains(y) <==> (s.contains(y) || y == x) by {
        if s.contains(y) {
            let k = choose|k: int| 0 <= k < s.len() && s[k] == y;
            assert(s.push(x)[k] == y);
        }
        if y == x {
            assert(s.push(x)[s.len() as int] == y);
        }
        if s.push(x).contains(y) && y != x {
            let k = choose|k: int| 0 <= k < s.len() + 1 && s.push(x)[k] == y;
            assert(s[k] == y);
        }
    }
}

/// `post` is `pre` with the elements under `consumed` taken out and one new
/// element added under the next handle.
pub open spec fn added_one(
    pre: KernelSchemaVisitorState,
    post: KernelSchemaVisitorState,
    consumed: Set<usize>,
) -> bool {
    let h = pre.next_handle();
    &&& post.next_handle() == h + 1
    &&& post.is_closed() == pre.is_closed()
    &&& post.elements() == pre.elements().remove_keys(consumed).insert(h, post.elements()[h])
}

/// The element under `h` is a field named `name` with the given nullability and metadata.
pub open spec fn field_described(
    s: KernelSchemaVisitorState,
    h: usize,
    name: Seq<char>,
    nullable: bool,
    metadata: Map<String, MetadataValue>,
) -> bool {
    &&& s.elements().contains_key(h)
    &&& s.elements()[h] matches SchemaElement::Field(f)
    &&& f.name@ == name
    &&& f.nullable == nullable
    &&& f.metadata@ == metadata
}

/// The field under `h`.
pub open spec fn field_at(s: KernelSchemaVisitorState, h: usize) -> StructField {
    s.elements()[h]->Field_0
}

/// The struct operation: on an open session whose `ids` all resolve, in order,
/// to fields, those fields are taken out and become, in that order, the members
/// of a new struct field; otherwise nothing changes and the first failing
/// position is reported.
pub open spec fn struct_built(
    pre: KernelSchemaVisitorState,
    post: KernelSchemaVisitorState,
    name: Seq<char>,
    ids: Seq<usize>,
    nullable: bool,
    metadata: Map<String, MetadataValue>,
    r: Result<usize, SchemaError>,
) -> bool {
    &&& post.wf()
    &&& if pre.is_closed() {
        r == Err::<usize, SchemaError>(SchemaError::SessionClosed) && post == pre
    } else if !fields_resolve(pre.elements(), ids) {
        &&& post == pre
        &&& exists|i: int|
            first_field_failure(pre.elements(), ids, i) && r == Err::<usize, SchemaError>(
                field_error_at(pre.elements(), ids, i),
            )
    } else {
        &&& r == Ok::<usize, SchemaError>(pre.next_handle())
        &&& added_one(pre, post, ids.to_set())
        &&& field_described(post, pre.next_handle(), name, nullable, metadata)
        &&& field_at(post, pre.next_handle()).data_type matches DataType::Struct(st)
        &&& st.fields@ == resolved_fields(pre.elements(), ids)
    }
}

/// Builds a struct field named `name` whose members are the fields under
/// `field_ids`, in that order, and returns its handle.
pub fn visit_schema_struct(
    state: &mut KernelSchemaVisitorState,
    name: &str,
    field_ids: &[usize],
    nullable: bool,
    metadata: Option<FieldMetadata>,
) -> (r: Result<usize, SchemaError>)
    requires
        old(state).wf(),
        old(state).has_room(),
    ensures
        struct_built(*old(state), *final(state), name@, field_ids@, nullable, metadata_of(metadata), r),
{
    if state.extracted {
        return Err(SchemaError::SessionClosed);
    }
    let fields = match state.take_fields(field_ids) {
        Ok(fs) => fs,
        Err(e) => return Err(e),
    };
    let field = StructField::new(name, DataType::Struct(Box::new(StructType { fields })), nullable, metadata);
    Ok(state.elements.insert(SchemaElement::Field(field)))
}

/// The assembly operation: on an open session whose `ids` all resolve, in
/// order, to fields, those fields are taken out and become, in that order, a
/// new schema; otherwise nothing changes and the first failing position is reported.
pub open spec fn schema_built(
    pre: KernelSchemaVisitorState,
    post: KernelSchemaVisitorState,
    ids: Seq<usize>,
    r: Result<usize, SchemaError>,
) -> bool {
    &&& post.wf()
    &&& if pre.is_closed() {
        r == Err::<usize, SchemaError>(SchemaError::SessionClosed) && post == pre
    } else if !fields_resolve(pre.elements(), ids) {
        &&& post == pre
        &&& exists|i: int|
            first_field_failure(pre.elements(), ids, i) && r == Err::<usize, SchemaError>(
                field_error_at(pre.elements(), ids, i),
            )
    } else {
        &&& r == Ok::<usize, SchemaError>(pre.next_handle())
        &&& added_one(pre, post, ids.to_set())
        &&& post.elements()[pre.next_handle()] matches SchemaElement::Schema(st)
        &&& st.fields@ == resolved_fields(pre.elements(), ids)
    }
}

/// Assembles the fields under `field_ids`, in that order, into a schema and
/// returns its handle.
pub fn build_kernel_schema(state: &mut KernelSchemaVisitorState, field_ids: &[usize]) -> (r: Result<usize, SchemaError>)
    requires
        old(state).wf(),
        old(state).has_room(),
    ensures
        schema_built(*old(state), *final(state), field_ids@, r),
{
    if state.extracted {
        return Err(SchemaError::SessionClosed);
    }
    let fields = match state.take_fields(field_ids) {
        Ok(fs) => fs,
        Err(e) => return Err(e),
    };
    Ok(state.elements.insert(SchemaElement::Schema(StructType { fields })))
}

/// The array operation: on an open session where `elem` is live, its element is
/// taken out and, read as a type, becomes the element type of a new array field.
pub open spec fn array_built(
    pre: KernelSchemaVisitorState,
    post: KernelSchemaVisitorState,
    name: Seq<char>,
    elem: usize,
    contains_null: bool,
    nullable: bool,
    metadata: Map<String, MetadataValue>,
    r: Result<usize, SchemaError>,
) -> bool {
    &&& post.wf()
    &&& if pre.is_closed() {
        r == Err::<usize, SchemaError>(SchemaError::SessionClosed) && post == pre
    } else if !pre.elements().contains_key(elem) {
        r == Err::<usize, SchemaError>(SchemaError::UnknownHandle(elem)) && post == pre
    } else {
        &&& r == Ok::<usize, SchemaError>(pre.next_handle())
        &&& added_one(pre, post, set![elem])
        &&& field_described(post, pre.next_handle(), name, nullable, metadata)
        &&& field_at(post, pre.next_handle()).data_type == DataType::Array(
            Box::new(ArrayType { element_type: type_of(pre.elements()[elem]), contains_null }),
        )
    }
}

/// Takes out the element under `h` read as a type, if `h` is live.
fn take_type(state: &mut KernelSchemaVisitorState, h: usize) -> (r: Option<DataType>)
    requires
        old(state).wf(),
    ensures
        final(state).wf(),
        final(state).next_handle() == old(state).next_handle(),
        final(state).is_closed() == old(state).is_closed(),
        r is Some <==> old(state).elements().contains_key(h),
        r matches Some(t) ==> {
            &&& t == type_of(old(state).elements()[h])
            &&& final(state).elements() == old(state).elements().remove(h)
        },
        r is None ==> *final(state) == *old(state),
{
    if !state.elements.is_live(h) {
        return None;
    }
    match state.elements.take(h) {
        Some(SchemaElement::DataType(t)) => Some(t),
        Some(SchemaElement::Field(f)) => Some(f.data_type),
        Some(SchemaElement::Schema(st)) => Some(DataType::Struct(Box::new(st))),
        None => None,
    }
}

/// Builds an array field named `name` whose element type is the element under
/// `element_type_id`, read as a type, and returns its handle.
pub fn visit_schema_array(
    state: &mut KernelSchemaVisitorState,
    name: &str,
    element_type_id: usize,
    contains_null: bool,
    nullable: bool,
    metadata: Option<FieldMetadata>,
) -> (r: Result<usize, SchemaError>)
    requires
        old(state).wf(),
        old(state).has_room(),
    ensures
        array_built(
            *old(state),
            *final(state),
            name@,
            element_type_id,
            contains_null,
            nullable,
            metadata_of(metadata),
            r,
        ),
{
    if state.extracted {
        return Err(SchemaError::SessionClosed);
    }
    let element_type = match take_type(state, element_type_id) {
        Some(t) => t,
        None => return Err(SchemaError::UnknownHandle(element_type_id)),
    };
    let array_type = ArrayType { element_type, contains_null };
    let field = StructField::new(name, DataType::Array(Box::new(array_type)), nullable, metadata);
    proof {
        assert(set![element_type_id] =~= Set::empty().insert(element_type_id));
        assert(old(state).elements().remove(element_type_id) =~= old(state).elements().remove_keys(set![element_type_id]));
    }
    Ok(state.elements.insert(SchemaElement::Field(field)))
}

/// The map operation: on an open session where `key` is live, and `value` is
/// live and another handle, both elements are taken out and, read as types,
/// become the key and value types of a new map field; otherwise nothing changes.
pub open spec fn map_built(
    pre: KernelSchemaVisitorState,
    post: KernelSchemaVisitorState,
    name: Seq<char>,
    key: usize,
    value: usize,
    value_contains_null: bool,
    nullable: bool,
    metadata: Map<String, MetadataValue>,
    r: Result<usize, SchemaError>,
) -> bool {
    &&& post.wf()
    &&& if pre.is_closed() {
        r == Err::<usize, SchemaError>(SchemaError::SessionClosed) && post == pre
    } else if !pre.elements().contains_key(key) {
        r == Err::<usize, SchemaError>(SchemaError::UnknownHandle(key)) && post == pre
    } else if !pre.elements().contains_key(value) || value == key {
        r == Err::<usize, SchemaError>(SchemaError::UnknownHandle(value)) && post == pre
    } else {
        &&& r == Ok::<usize, SchemaError>(pre.next_handle())
        &&& added_one(pre, post, set![key, value])
        &&& field_described(post, pre.next_handle(), name, nullable, metadata)
        &&& field_at(post, pre.next_handle()).data_type == DataType::Mapping(
            Box::new(
                MapType {
                    key_type: type_of(pre.elements()[key]),
                    value_type: type_of(pre.elements()[value]),
                    value_contains_null,
                },
            ),
        )
    }
}

/// Builds a map field named `name` from the elements under `key_type_id` and
/// `value_type_id`, each read as a type, and returns its handle.
pub fn visit_schema_map(
    state: &mut KernelSchemaVisitorState,
    name: &str,
    key_type_id: usize,
    value_type_id: usize,
    value_contains_null: bool,
    nullable: bool,
    metadata: Option<FieldMetadata>,
) -> (r: Result<usize, SchemaError>)
    requires
        old(state).wf(),
        old(state).has_room(),
    ensures
        map_built(
            *old(state),
            *final(state),
            name@,
            key_type_id,
            value_type_id,
            value_contains_null,
            nullable,
            metadata_of(metadata),
            r,
        ),
{
    if state.extracted {
        return Err(SchemaError::SessionClosed);
    }
    if !state.elements.is_live(key_type_id) {
        return Err(SchemaError::UnknownHandle(key_type_id));
    }
    if !state.elements.is_live(value_type_id) || value_type_id == key_type_id {
        return Err(SchemaError::UnknownHandle(value_type_id));
    }
    let ghost mid = *state;
    let key_type = match take_type(state, key_type_id) {
        Some(t) => t,
        None => return Err(SchemaError::UnknownHandle(key_type_id)),
    };
    let value_type = match take_type(state, value_type_id) {
        Some(t) => t,
        None => return Err(SchemaError::UnknownHandle(value_type_id)),
    };
    let map_type = MapType { key_type, value_type, value_contains_null };
    let field = StructField::new(name, DataType::Mapping(Box::new(map_type)), nullable, metadata);
    proof {
        assert(old(state).elements().remove(key_type_id).remove(value_type_id) =~= old(state).elements().remove_keys(set![key_type_id, value_type_id]));
    }
    Ok(state.elements.insert(SchemaElement::Field(field)))
}

/// The code of each primitive type, as the boundary numbers them.
pub open spec fn primitive_for_code(code: u8) -> Option<PrimitiveType> {
    if code == 0 {
        Some(PrimitiveType::String)
    } else if code == 1 {
        Some(PrimitiveType::Long)
    } else if code == 2 {
        Some(PrimitiveType::Integer)
    } else if code == 3 {
        Some(PrimitiveType::Short)
    } else if code == 4 {
        Some(PrimitiveType::Byte)
    } else if code == 5 {
        Some(PrimitiveType::Float)
    } else if code == 6 {
        Some(PrimitiveType::Double)
    } else if code == 7 {
        Some(PrimitiveType::Boolean)
    } else if code == 8 {
        Some(PrimitiveType::Binary)
    } else if code == 9 {
        Some(PrimitiveType::Date)
    } else if code == 10 {
        Some(PrimitiveType::Timestamp)
    } else if code == 11 {
        Some(PrimitiveType::TimestampNtz)
    } else {
        None
    }
}

/// Adding a bare data type: on an open session `t` is added under the next handle.
pub open spec fn type_added(
    pre: KernelSchemaVisitorState,
    post: KernelSchemaVisitorState,
    t: DataType,
    r: Result<usize, SchemaError>,
) -> bool {
    &&& r == Ok::<usize, SchemaError>(pre.next_handle())
    &&& post.next_handle() == pre.next_handle() + 1
    &&& post.is_closed() == pre.is_closed()
    &&& post.elements() == pre.elements().insert(pre.next_handle(), SchemaElement::DataType(t))
}

/// The bare primitive type operation: on an open session a code in `0..=11`
/// adds its primitive type; any other code changes nothing.
pub open spec fn primitive_type_created(
    pre: KernelSchemaVisitorState,
    post: KernelSchemaVisitorState,
    code: u8,
    r: Result<usize, SchemaError>,
) -> bool {
    &&& post.wf()
    &&& if pre.is_closed() {
        r == Err::<usize, SchemaError>(SchemaError::SessionClosed) && post == pre
    } else if primitive_for_code(code) is None {
        r == Err::<usize, SchemaError>(SchemaError::InvalidPrimitiveCode(code)) && post == pre
    } else {
        type_added(pre, post, DataType::Primitive(primitive_for_code(code)->Some_0), r)
    }
}

/// Adds the bare primitive type numbered `primitive_type` and returns its handle.
pub fn create_primitive_type(state: &mut KernelSchemaVisitorState, primitive_type: u8) -> (r: Result<usize, SchemaError>)
    requires
        old(state).wf(),
        old(state).has_room(),
    ensures
        primitive_type_created(*old(state), *final(state), primitive_type, r),
{
    if state.extracted {
        return Err(SchemaError::SessionClosed);
    }
    let kind = match primitive_type {
        0 => PrimitiveType::String,
        1 => PrimitiveType::Long,
        2 => PrimitiveType::Integer,
        3 => PrimitiveType::Short,
        4 => PrimitiveType::Byte,
        5 => PrimitiveType::Float,
        6 => PrimitiveType::Double,
        7 => PrimitiveType::Boolean,
        8 => PrimitiveType::Binary,
        9 => PrimitiveType::Date,
        10 => PrimitiveType::Timestamp,
        11 => PrimitiveType::TimestampNtz,
        _ => return Err(SchemaError::InvalidPrimitiveCode(primitive_type)),
    };
    Ok(state.elements.insert(SchemaElement::DataType(DataType::Primitive(kind))))
}

/// The variant operation: on an open session where `id` is live and holds a
/// schema or a struct data type, that struct is taken out and wrapped in a new
/// variant field; otherwise nothing changes.
pub open spec fn variant_built(
    pre: KernelSchemaVisitorState,
    post: KernelSchemaVisitorState,
    name: Seq<char>,
    id: usize,
    nullable: bool,
    metadata: Map<String, MetadataValue>,
    r: Result<usize, SchemaError>,
) -> bool {
    &&& post.wf()
    &&& if pre.is_closed() {
        r == Err::<usize, SchemaError>(SchemaError::SessionClosed) && post == pre
    } else if !pre.elements().contains_key(id) {
        r == Err::<usize, SchemaError>(SchemaError::UnknownHandle(id)) && post == pre
    } else if struct_payload(pre.elements()[id]) is None {
        r == Err::<usize, SchemaError>(SchemaError::WrongKind(id)) && post == pre
    } else {
        &&& r == Ok::<usize, SchemaError>(pre.next_handle())
        &&& added_one(pre, post, set![id])
        &&& field_described(post, pre.next_handle(), name, nullable, metadata)
        &&& field_at(post, pre.next_handle()).data_type == DataType::Variant(
            Box::new(struct_payload(pre.elements()[id])->Some_0),
        )
    }
}

/// Builds a variant field named `name` over the struct under
/// `variant_struct_id`, which must be a schema or a struct data type, and
/// returns its handle.
pub fn visit_schema_variant(
    state: &mut KernelSchemaVisitorState,
    name: &str,
    variant_struct_id: usize,
    nullable: bool,
    metadata: Option<FieldMetadata>,
) -> (r: Result<usize, SchemaError>)
    requires
        old(state).wf(),
        old(state).has_room(),
    ensures
        variant_built(*old(state), *final(state), name@, variant_struct_id, nullable, metadata_of(metadata), r),
{
    if state.extracted {
        return Err(SchemaError::SessionClosed);
    }
    let struct_shaped = match state.elements.peek(variant_struct_id) {
        None => return Err(SchemaError::UnknownHandle(variant_struct_id)),
        Some(SchemaElement::Schema(_)) => true,
        Some(SchemaElement::DataType(DataType::Struct(_))) => true,
        Some(_) => false,
    };
    if !struct_shaped {
        return Err(SchemaError::WrongKind(variant_struct_id));
    }
    let payload = match state.elements.take(variant_struct_id) {
        Some(SchemaElement::Schema(st)) => st,
        Some(SchemaElement::DataType(DataType::Struct(st))) => *st,
        _ => {
            assert(false);
            return Err(SchemaError::WrongKind(variant_struct_id));
        },
    };
    let field = StructField::new(name, DataType::Variant(Box::new(payload)), nullable, metadata);
    proof {
        assert(old(state).elements().remove(variant_struct_id) =~= old(state).elements().remove_keys(set![variant_struct_id]));
    }
    Ok(state.elements.insert(SchemaElement::Field(field)))
}

/// The extraction: on an open session where `h` is live and its element yields
/// a schema (a schema, a lone field, or a struct data type), the element is
/// taken out, its schema returned, and the session ends; otherwise nothing
/// changes and nothing is returned.
pub open spec fn schema_extracted(
    pre: KernelSchemaVisitorState,
    post: KernelSchemaVisitorState,
    h: usize,
    r: Option<StructType>,
) -> bool {
    &&& post.wf()
    &&& if pre.is_closed() || !pre.elements().contains_key(h) || schema_fields(pre.elements()[h]) is None {
        r is None && post == pre
    } else {
        &&& r matches Some(st)
        &&& st.fields@ == schema_fields(pre.elements()[h])->Some_0
        &&& post.elements() == pre.elements().remove(h)
        &&& post.next_handle() == pre.next_handle()
        &&& post.is_closed()
    }
}

/// Takes the schema under `schema_id` out of the session, which then ends.
pub fn unwrap_kernel_schema(state: &mut KernelSchemaVisitorState, schema_id: usize) -> (r: Option<StructType>)
    requires
        old(state).wf(),
    ensures
        schema_extracted(*old(state), *final(state), schema_id, r),
{
    if state.extracted {
        return None;
    }
    let schema_shaped = match state.elements.peek(schema_id) {
        None => return None,
        Some(SchemaElement::Schema(_)) => true,
        Some(SchemaElement::Field(_)) => true,
        Some(SchemaElement::DataType(DataType::Struct(_))) => true,
        Some(_) => false,
    };
    if !schema_shaped {
        return None;
    }
    let schema = match state.elements.take(schema_id) {
        Some(SchemaElement::Schema(st)) => st,
        Some(SchemaElement::Field(f)) => {
            let mut fields: Vec<StructField> = Vec::new();
            fields.push(f);
            assert(fields@ =~= seq![f]);
            StructType { fields }
        },
        Some(SchemaElement::DataType(DataType::Struct(st))) => *st,
        _ => {
            assert(false);
            return None;
        },
    };
    state.extracted = true;
    Some(schema)
}

/// A primitive leaf operation: on an open session a new field `name` of the
/// primitive type `kind` is added; no handle is consumed.
pub open spec fn leaf_built(
    pre: KernelSchemaVisitorState,
    post: KernelSchemaVisitorState,
    name: Seq<char>,
    kind: PrimitiveType,
    nullable: bool,
    metadata: Map<String, MetadataValue>,
    r: Result<usize, SchemaError>,
) -> bool {
    &&& post.wf()
    &&& if pre.is_closed() {
        r == Err::<usize, SchemaError>(SchemaError::SessionClosed) && post == pre
    } else {
        &&& r == Ok::<usize, SchemaError>(pre.next_handle())
        &&& added_one(pre, post, Set::empty())
        &&& field_described(post, pre.next_handle(), name, nullable, metadata)
        &&& field_at(post, pre.next_handle()).data_type == DataType::Primitive(kind)
    }
}

/// Adds a field named `name` of the primitive type `kind` and returns its handle.
fn visit_primitive(
    state: &mut KernelSchemaVisitorState,
    name: &str,
    kind: PrimitiveType,
    nullable: bool,
    metadata: Option<FieldMetadata>,
) -> (r: Result<usize, SchemaError>)
    requires
        old(state).wf(),
        old(state).has_room(),
    ensures
        leaf_built(*old(state), *final(state), name@, kind, nullable, metadata_of(metadata), r),
{
    if state.extracted {
        return Err(SchemaError::SessionClosed);
    }
    let field = StructField::new(name, DataType::Primitive(kind), nullable, metadata);
    proof {
        assert(old(state).elements().remove_keys(Set::empty()) =~= old(state).elements());
    }
    Ok(state.elements.insert(SchemaElement::Field(field)))
}

/// Adds a string field named `name` and returns its handle.
pub fn visit_schema_string(
    state: &mut KernelSchemaVisitorState,
    name: &str,
    nullable: bool,
    metadata: Option<FieldMetadata>,
) -> (r: Result<usize, SchemaError>)
    requires
        old(state).wf(),
        old(state).has_room(),
    ensures
        leaf_built(*old(state), *final(state), name@, PrimitiveType::String, nullable, metadata_of(metadata), r),
{
    visit_primitive(state, name, PrimitiveType::String, nullable, metadata)
}

/// Adds a long (64-bit integer) field named `name` and returns its handle.
pub fn visit_schema_long(
    state: &mut KernelSchemaVisitorState,
    name: &str,
    nullable: bool,
    metadata: Option<FieldMetadata>,
) -> (r: Result<usize, SchemaError>)
    requires
        old(state).wf(),
        old(state).has_room(),
    ensures
        leaf_built(*old(state), *final(state), name@, PrimitiveType::Long, nullable, metadata_of(metadata), r),
{
    visit_primitive(state, name, PrimitiveType::Long, nullable, metadata)
}

/// Adds an integer (32-bit) field named `name` and returns its handle.
pub fn visit_schema_integer(
    state: &mut KernelSchemaVisitorState,
    name: &str,
    nullable: bool,
    metadata: Option<FieldMetadata>,
) -> (r: Result<usize, SchemaError>)
    requires
        old(state).wf(),
        old(state).has_room(),
    ensures
        leaf_built(*old(state), *final(state), name@, PrimitiveType::Integer, nullable, metadata_of(metadata), r),
{
    visit_primitive(state, name, PrimitiveType::Integer, nullable, metadata)
}

/// Adds a boolean field named `name` and returns its handle.
pub fn visit_schema_boolean(
    state: &mut KernelSchemaVisitorState,
    name: &str,
    nullable: bool,
    metadata: Option<FieldMetadata>,
) -> (r: Result<usize, SchemaError>)
    requires
        old(state).wf(),
        old(state).has_room(),
    ensures
        leaf_built(*old(state), *final(state), name@, PrimitiveType::Boolean, nullable, metadata_of(metadata), r),
{
    visit_primitive(state, name, PrimitiveType::Boolean, nullable, metadata)
}

/// Adds a double field named `name` and returns its handle.
pub fn visit_schema_double(
    state: &mut KernelSchemaVisitorState,
    name: &str,
    nullable: bool,
    metadata: Option<FieldMetadata>,
) -> (r: Result<usize, SchemaError>)
    requires
        old(state).wf(),
        old(state).has_room(),
    ensures
        leaf_built(*old(state), *final(state), name@, PrimitiveType::Double, nullable, metadata_of(metadata), r),
{
    visit_primitive(state, name, PrimitiveType::Double, nullable, metadata)
}

/// Adds a short (16-bit integer) field named `name` and returns its handle.
pub fn visit_schema_short(
    state: &mut KernelSchemaVisitorState,
    name: &str,
    nullable: bool,
    metadata: Option<FieldMetadata>,
) -> (r: Result<usize, SchemaError>)
    requires
        old(state).wf(),
        old(state).has_room(),
    ensures
        leaf_built(*old(state), *final(state), name@, PrimitiveType::Short, nullable, metadata_of(metadata), r),
{
    visit_primitive(state, name, PrimitiveType::Short, nullable, metadata)
}

/// Adds a byte (8-bit integer) field named `name` and returns its handle.
pub fn visit_schema_byte(
    state: &mut KernelSchemaVisitorState,
    name: &str,
    nullable: bool,
    metadata: Option<FieldMetadata>,
) -> (r: Result<usize, SchemaError>)
    requires
        old(state).wf(),
        old(state).has_room(),
    ensures
        leaf_built(*old(state), *final(state), name@, PrimitiveType::Byte, nullable, metadata_of(metadata), r),
{
    visit_primitive(state, name, PrimitiveType::Byte, nullable, metadata)
}

/// Adds a float field named `name` and returns its handle.
pub fn visit_schema_float(
    state: &mut KernelSchemaVisitorState,
    name: &str,
    nullable: bool,
    metadata: Option<FieldMetadata>,
) -> (r: Result<usize, SchemaError>)
    requires
        old(state).wf(),
        old(state).has_room(),
    ensures
        leaf_built(*old(state), *final(state), name@, PrimitiveType::Float, nullable, metadata_of(metadata), r),
{
    visit_primitive(state, name, PrimitiveType::Float, nullable, metadata)
}

/// Adds a binary field named `name` and returns its handle.
pub fn visit_schema_binary(
    state: &mut KernelSchemaVisitorState,
    name: &str,
    nullable: bool,
    metadata: Option<FieldMetadata>,
) -> (r: Result<usize, SchemaError>)
    requires
        old(state).wf(),
        old(state).has_room(),
    ensures
        leaf_built(*old(state), *final(state), name@, PrimitiveType::Binary, nullable, metadata_of(metadata), r),
{
    visit_primitive(state, name, PrimitiveType::Binary, nullable, metadata)
}

/// Adds a date field named `name` and returns its handle.
pub fn visit_schema_date(
    state: &mut KernelSchemaVisitorState,
    name: &str,
    nullable: bool,
    metadata: Option<FieldMetadata>,
) -> (r: Result<usize, SchemaError>)
    requires
        old(state).wf(),
        old(state).has_room(),
    ensures
        leaf_built(*old(state), *final(state), name@, PrimitiveType::Date, nullable, metadata_of(metadata), r),
{
    visit_primitive(state, name, PrimitiveType::Date, nullable, metadata)
}

/// Adds a timestamp (microseconds, UTC) field named `name` and returns its handle.
pub fn visit_schema_timestamp(
    state: &mut KernelSchemaVisitorState,
    name: &str,
    nullable: bool,
    metadata: Option<FieldMetadata>,
) -> (r: Result<usize, SchemaError>)
    requires
        old(state).wf(),
        old(state).has_room(),
    ensures
        leaf_built(*old(state), *final(state), name@, PrimitiveType::Timestamp, nullable, metadata_of(metadata), r),
{
    visit_primitive(state, name, PrimitiveType::Timestamp, nullable, metadata)
}

/// Adds a timestamp without time zone field named `name` and returns its handle.
pub fn visit_schema_timestamp_ntz(
    state: &mut KernelSchemaVisitorState,
    name: &str,
    nullable: bool,
    metadata: Option<FieldMetadata>,
) -> (r: Result<usize, SchemaError>)
    requires
        old(state).wf(),
        old(state).has_room(),
    ensures
        leaf_built(*old(state), *final(state), name@, PrimitiveType::TimestampNtz, nullable, metadata_of(metadata), r),
{
    visit_primitive(state, name, PrimitiveType::TimestampNtz, nullable, metadata)
}

/// Adds a string field named `name`, without metadata, and returns its handle.
pub fn visit_schema_string_simple(state: &mut KernelSchemaVisitorState, name: &str, nullable: bool) -> (r: Result<usize, SchemaError>)
    requires
        old(state).wf(),
        old(state).has_room(),
    ensures
        leaf_built(*old(state), *final(state), name@, PrimitiveType::String, nullable, Map::empty(), r),
{
    visit_schema_string(state, name, nullable, None)
}

/// Adds a long field named `name`, without metadata, and returns its handle.
pub fn visit_schema_long_simple(state: &mut KernelSchemaVisitorState, name: &str, nullable: bool) -> (r: Result<usize, SchemaError>)
    requires
        old(state).wf(),
        old(state).has_room(),
    ensures
        leaf_built(*old(state), *final(state), name@, PrimitiveType::Long, nullable, Map::empty(), r),
{
    visit_schema_long(state, name, nullable, None)
}

/// Adds a boolean field named `name`, without metadata, and returns its handle.
pub fn visit_schema_boolean_simple(state: &mut KernelSchemaVisitorState, name: &str, nullable: bool) -> (r: Result<usize, SchemaError>)
    requires
        old(state).wf(),
        old(state).has_room(),
    ensures
        leaf_built(*old(state), *final(state), name@, PrimitiveType::Boolean, nullable, Map::empty(), r),
{
    visit_schema_boolean(state, name, nullable, None)
}

/// The decimal leaf operation: on an open session with a legal precision and
/// scale a new decimal field `name` is added; otherwise nothing changes.
pub open spec fn decimal_field_built(
    pre: KernelSchemaVisitorState,
    post: KernelSchemaVisitorState,
    name: Seq<char>,
    precision: u8,
    scale: i8,
    nullable: bool,
    metadata: Map<String, MetadataValue>,
    r: Result<usize, SchemaError>,
) -> bool {
    &&& post.wf()
    &&& if pre.is_closed() {
        r == Err::<usize, SchemaError>(SchemaError::SessionClosed) && post == pre
    } else if !decimal_ok(precision as int, scale as int) {
        r == Err::<usize, SchemaError>(SchemaError::InvalidDecimal { precision, scale }) && post == pre
    } else {
        &&& r == Ok::<usize, SchemaError>(pre.next_handle())
        &&& added_one(pre, post, Set::empty())
        &&& field_described(post, pre.next_handle(), name, nullable, metadata)
        &&& field_at(post, pre.next_handle()).data_type matches DataType::Primitive(PrimitiveType::Decimal(d))
        &&& d.spec_precision() == precision
        &&& d.spec_scale() as int == scale as int
    }
}

/// Adds a decimal field named `name` of `precision` digits, `scale` of them
/// after the point, and returns its handle.
pub fn visit_schema_decimal(
    state: &mut KernelSchemaVisitorState,
    name: &str,
    precision: u8,
    scale: i8,
    nullable: bool,
    metadata: Option<FieldMetadata>,
) -> (r: Result<usize, SchemaError>)
    requires
        old(state).wf(),
        old(state).has_room(),
    ensures
        decimal_field_built(*old(state), *final(state), name@, precision, scale, nullable, metadata_of(metadata), r),
{
    if state.extracted {
        return Err(SchemaError::SessionClosed);
    }
    let decimal = match DecimalType::try_new(precision, scale) {
        Ok(d) => d,
        Err(e) => return Err(e),
    };
    let field = StructField::new(name, DataType::Primitive(PrimitiveType::Decimal(decimal)), nullable, metadata);
    proof {
        assert(old(state).elements().remove_keys(Set::empty()) =~= old(state).elements());
    }
    Ok(state.elements.insert(SchemaElement::Field(field)))
}

/// The bare decimal type operation: on an open session with a legal precision
/// and scale the decimal type is added; otherwise nothing changes.
pub open spec fn decimal_type_created(
    pre: KernelSchemaVisitorState,
    post: KernelSchemaVisitorState,
    precision: u8,
    scale: i8,
    r: Result<usize, SchemaError>,
) -> bool {
    &&& post.wf()
    &&& if pre.is_closed() {
        r == Err::<usize, SchemaError>(SchemaError::SessionClosed) && post == pre
    } else if !decimal_ok(precision as int, scale as int) {
        r == Err::<usize, SchemaError>(SchemaError::InvalidDecimal { precision, scale }) && post == pre
    } else {
        &&& r == Ok::<usize, SchemaError>(pre.next_handle())
        &&& added_one(pre, post, Set::empty())
        &&& post.elements()[pre.next_handle()] matches SchemaElement::DataType(DataType::Primitive(PrimitiveType::Decimal(d)))
        &&& d.spec_precision() == precision
        &&& d.spec_scale() as int == scale as int
    }
}

/// Adds the bare decimal type of `precision` digits, `scale` of them after the
/// point, and returns its handle.
pub fn create_decimal_type(state: &mut KernelSchemaVisitorState, precision: u8, scale: i8) -> (r: Result<usize, SchemaError>)
    requires
        old(state).wf(),
        old(state).has_room(),
    ensures
        decimal_type_created(*old(state), *final(state), precision, scale, r),
{
    if state.extracted {
        return Err(SchemaError::SessionClosed);
    }
    let decimal = match DecimalType::try_new(precision, scale) {
        Ok(d) => d,
        Err(e) => return Err(e),
    };
    proof {
        assert(old(state).elements().remove_keys(Set::empty()) =~= old(state).elements());
    }
    Ok(state.elements.insert(SchemaElement::DataType(DataType::Primitive(PrimitiveType::Decimal(decimal)))))
}

/// The handle of a successful call, or 0 for a failed one: handles are never 0.
pub fn handle_or_zero(r: Result<usize, SchemaError>) -> (h: usize)
    ensures
        h == match r {
            Ok(h) => h,
            Err(_) => 0,
        },
{
    match r {
        Ok(h) => h,
        Err(_) => 0,
    }
}

impl Default for KernelSchemaVisitorState {
    /// A session with no elements.
    fn default() -> (s: Self)
        ensures
            s.wf(),
            s.elements() == Map::<usize, SchemaElement>::empty(),
            s.next_handle() == 1,
            !s.is_closed(),
    {
        Self::new()
    }
}

} // verus!
