//! Properties that relate several operations of a construction session.

use vstd::prelude::*;

use crate::element::{field_fails_at, fields_resolve, resolved_fields, SchemaElement};
use crate::error::SchemaError;
use crate::schema::{DataType, PrimitiveType, StructType};
use crate::visitor::{
    array_built, decimal_field_built, decimal_type_created, field_at, leaf_built, map_built,
    primitive_type_created, schema_built, schema_extracted, struct_built, variant_built,
    KernelSchemaVisitorState,
};
use delta_kernel::schema::MetadataValue;

verus! {

/// A leaf field built in an open session, assembled alone into a schema and
/// extracted, comes back as the only field of that schema, with the name,
/// type and nullability it was built with.
pub proof fn lemma_leaf_round_trip(
    s0: KernelSchemaVisitorState,
    s1: KernelSchemaVisitorState,
    s2: KernelSchemaVisitorState,
    s3: KernelSchemaVisitorState,
    name: Seq<char>,
    kind: PrimitiveType,
    nullable: bool,
    metadata: Map<String, MetadataValue>,
    r1: Result<usize, SchemaError>,
    r2: Result<usize, SchemaError>,
    r3: Option<StructType>,
)
    requires
        s0.wf(),
        !s0.is_closed(),
        s0.next_handle() + 1 < usize::MAX,
        leaf_built(s0, s1, name, kind, nullable, metadata, r1),
        schema_built(s1, s2, seq![r1->Ok_0], r2),
        schema_extracted(s2, s3, r2->Ok_0, r3),
    ensures
        r1 is Ok,
        r2 is Ok,
        r3 matches Some(st) && {
            &&& st.fields@.len() == 1
            &&& st.fields@[0].name@ == name
            &&& st.fields@[0].data_type == DataType::Primitive(kind)
            &&& st.fields@[0].nullable == nullable
        },
{
    let h1 = r1->Ok_0;
    let ids = seq![h1];
    assert(ids.take(0) =~= Seq::<usize>::empty());
    assert(!field_fails_at(s1.elements(), ids, 0));
    assert(fields_resolve(s1.elements(), ids));
    assert(resolved_fields(s1.elements(), ids) =~= seq![field_at(s1, h1)]);
}

/// A handle that was issued and whose element is gone.
pub open spec fn consumed(s: KernelSchemaVisitorState, h: usize) -> bool {
    &&& 1 <= h < s.next_handle()
    &&& !s.elements().contains_key(h)
}

/// A successful operation consumes every handle it was given.
pub proof fn lemma_operations_consume(pre: KernelSchemaVisitorState, post: KernelSchemaVisitorState)
    requires
        pre.wf(),
    ensures
        forall|name: Seq<char>, ids: Seq<usize>, nullable: bool, md: Map<String, MetadataValue>, r: Result<usize, SchemaError>, i: int|
            #![trigger struct_built(pre, post, name, ids, nullable, md, r), ids[i]]
            struct_built(pre, post, name, ids, nullable, md, r) && r is Ok && 0 <= i < ids.len()
                ==> consumed(post, ids[i]),
        forall|ids: Seq<usize>, r: Result<usize, SchemaError>, i: int|
            #![trigger schema_built(pre, post, ids, r), ids[i]]
            schema_built(pre, post, ids, r) && r is Ok && 0 <= i < ids.len() ==> consumed(post, ids[i]),
        forall|name: Seq<char>, h: usize, cn: bool, nullable: bool, md: Map<String, MetadataValue>, r: Result<usize, SchemaError>|
            #[trigger] array_built(pre, post, name, h, cn, nullable, md, r) && r is Ok ==> consumed(post, h),
        forall|name: Seq<char>, k: usize, v: usize, cn: bool, nullable: bool, md: Map<String, MetadataValue>, r: Result<usize, SchemaError>|
            #[trigger] map_built(pre, post, name, k, v, cn, nullable, md, r) && r is Ok ==> consumed(post, k) && consumed(post, v),
        forall|name: Seq<char>, h: usize, nullable: bool, md: Map<String, MetadataValue>, r: Result<usize, SchemaError>|
            #[trigger] variant_built(pre, post, name, h, nullable, md, r) && r is Ok ==> consumed(post, h),
        forall|h: usize, r: Option<StructType>|
            #[trigger] schema_extracted(pre, post, h, r) && r is Some ==> consumed(post, h),
{
    pre.lemma_wf();
    assert forall|name: Seq<char>, ids: Seq<usize>, nullable: bool, md: Map<String, MetadataValue>, r: Result<usize, SchemaError>, i: int|
        struct_built(pre, post, name, ids, nullable, md, r) && r is Ok && 0 <= i < ids.len()
        implies consumed(post, ids[i]) by {
        assert(!field_fails_at(pre.elements(), ids, i));
        assert(ids.to_set().contains(ids[i]));
    }
    assert forall|ids: Seq<usize>, r: Result<usize, SchemaError>, i: int|
        schema_built(pre, post, ids, r) && r is Ok && 0 <= i < ids.len() implies consumed(post, ids[i]) by {
        assert(!field_fails_at(pre.elements(), ids, i));
        assert(ids.to_set().contains(ids[i]));
    }
}

/// One operation's effect on the handles: the next handle never goes back, and
/// the only handle that can become live is the one that was next.
pub open spec fn issues_only_fresh(pre: KernelSchemaVisitorState, post: KernelSchemaVisitorState) -> bool {
    &&& pre.next_handle() <= post.next_handle()
    &&& forall|k: usize|
        #[trigger] post.elements().contains_key(k) && !pre.elements().contains_key(k) ==> k == pre.next_handle()
}

/// No operation makes an old handle live again.
pub proof fn lemma_operations_issue_only_fresh(pre: KernelSchemaVisitorState, post: KernelSchemaVisitorState)
    requires
        pre.wf(),
    ensures
        forall|name: Seq<char>, ids: Seq<usize>, nullable: bool, md: Map<String, MetadataValue>, r: Result<usize, SchemaError>|
            #[trigger] struct_built(pre, post, name, ids, nullable, md, r) ==> issues_only_fresh(pre, post),
        forall|ids: Seq<usize>, r: Result<usize, SchemaError>|
            #[trigger] schema_built(pre, post, ids, r) ==> issues_only_fresh(pre, post),
        forall|name: Seq<char>, h: usize, cn: bool, nullable: bool, md: Map<String, MetadataValue>, r: Result<usize, SchemaError>|
            #[trigger] array_built(pre, post, name, h, cn, nullable, md, r) ==> issues_only_fresh(pre, post),
        forall|name: Seq<char>, k: usize, v: usize, cn: bool, nullable: bool, md: Map<String, MetadataValue>, r: Result<usize, SchemaError>|
            #[trigger] map_built(pre, post, name, k, v, cn, nullable, md, r) ==> issues_only_fresh(pre, post),
        forall|name: Seq<char>, h: usize, nullable: bool, md: Map<String, MetadataValue>, r: Result<usize, SchemaError>|
            #[trigger] variant_built(pre, post, name, h, nullable, md, r) ==> issues_only_fresh(pre, post),
        forall|name: Seq<char>, kind: PrimitiveType, nullable: bool, md: Map<String, MetadataValue>, r: Result<usize, SchemaError>|
            #[trigger] leaf_built(pre, post, name, kind, nullable, md, r) ==> issues_only_fresh(pre, post),
        forall|name: Seq<char>, p: u8, sc: i8, nullable: bool, md: Map<String, MetadataValue>, r: Result<usize, SchemaError>|
            #[trigger] decimal_field_built(pre, post, name, p, sc, nullable, md, r) ==> issues_only_fresh(pre, post),
        forall|code: u8, r: Result<usize, SchemaError>|
            #[trigger] primitive_type_created(pre, post, code, r) ==> issues_only_fresh(pre, post),
        forall|p: u8, sc: i8, r: Result<usize, SchemaError>|
            #[trigger] decimal_type_created(pre, post, p, sc, r) ==> issues_only_fresh(pre, post),
        forall|h: usize, r: Option<StructType>|
            #[trigger] schema_extracted(pre, post, h, r) ==> issues_only_fresh(pre, post),
{
}

/// A consumed handle stays consumed across any operation that issues only fresh handles.
pub proof fn lemma_consumed_stays_consumed(pre: KernelSchemaVisitorState, post: KernelSchemaVisitorState, h: usize)
    requires
        consumed(pre, h),
        issues_only_fresh(pre, post),
    ensures
        consumed(post, h),
{
}

/// Every operation that is handed a consumed handle fails, and changes nothing.
pub proof fn lemma_consumed_handle_fails(s: KernelSchemaVisitorState, post: KernelSchemaVisitorState, h: usize)
    requires
        consumed(s, h),
    ensures
        forall|name: Seq<char>, ids: Seq<usize>, nullable: bool, md: Map<String, MetadataValue>, r: Result<usize, SchemaError>|
            #[trigger] struct_built(s, post, name, ids, nullable, md, r) && ids.contains(h) ==> r is Err && post == s,
        forall|ids: Seq<usize>, r: Result<usize, SchemaError>|
            #[trigger] schema_built(s, post, ids, r) && ids.contains(h) ==> r is Err && post == s,
        forall|name: Seq<char>, cn: bool, nullable: bool, md: Map<String, MetadataValue>, r: Result<usize, SchemaError>|
            #[trigger] array_built(s, post, name, h, cn, nullable, md, r) ==> r is Err && post == s,
        forall|name: Seq<char>, k: usize, cn: bool, nullable: bool, md: Map<String, MetadataValue>, r: Result<usize, SchemaError>|
            #[trigger] map_built(s, post, name, k, h, cn, nullable, md, r) ==> r is Err && post == s,
        forall|name: Seq<char>, v: usize, cn: bool, nullable: bool, md: Map<String, MetadataValue>, r: Result<usize, SchemaError>|
            #[trigger] map_built(s, post, name, h, v, cn, nullable, md, r) ==> r is Err && post == s,
        forall|name: Seq<char>, nullable: bool, md: Map<String, MetadataValue>, r: Result<usize, SchemaError>|
            #[trigger] variant_built(s, post, name, h, nullable, md, r) ==> r is Err && post == s,
        forall|r: Option<StructType>| #[trigger] schema_extracted(s, post, h, r) ==> r is None && post == s,
{
    assert forall|ids: Seq<usize>| ids.contains(h) implies !fields_resolve(s.elements(), ids) by {
        let i = choose|i: int| 0 <= i < ids.len() && ids[i] == h;
        assert(field_fails_at(s.elements(), ids, i));
    }
}

/// A struct lists its members in the order of the handles it was given,
/// whatever order they were built in.
pub proof fn lemma_struct_keeps_order(
    pre: KernelSchemaVisitorState,
    post: KernelSchemaVisitorState,
    name: Seq<char>,
    ids: Seq<usize>,
    nullable: bool,
    metadata: Map<String, MetadataValue>,
    r: Result<usize, SchemaError>,
)
    requires
        struct_built(pre, post, name, ids, nullable, metadata, r),
        r is Ok,
    ensures
        field_at(post, r->Ok_0).data_type matches DataType::Struct(st) && {
            &&& st.fields@.len() == ids.len()
            &&& forall|i: int|
                0 <= i < ids.len() ==> pre.elements().contains_key(ids[i]) && pre.elements()[ids[i]]
                    == SchemaElement::Field(#[trigger] st.fields@[i])
        },
{
    assert(!pre.is_closed() && fields_resolve(pre.elements(), ids));
    let st = *(field_at(post, r->Ok_0).data_type->Struct_0);
    assert forall|i: int| 0 <= i < ids.len() implies pre.elements().contains_key(ids[i])
        && pre.elements()[ids[i]] == SchemaElement::Field(#[trigger] st.fields@[i]) by {
        assert(!field_fails_at(pre.elements(), ids, i));
        assert(st.fields@[i] == resolved_fields(pre.elements(), ids)[i]);
    }
}

/// When one of the handles given to the struct operation does not resolve to a
/// field, the operation fails and every element stays where it was, so the
/// other handles remain usable.
pub proof fn lemma_struct_all_or_nothing(
    pre: KernelSchemaVisitorState,
    post: KernelSchemaVisitorState,
    name: Seq<char>,
    ids: Seq<usize>,
    nullable: bool,
    metadata: Map<String, MetadataValue>,
    r: Result<usize, SchemaError>,
    bad: int,
)
    requires
        struct_built(pre, post, name, ids, nullable, metadata, r),
        0 <= bad < ids.len(),
        field_fails_at(pre.elements(), ids, bad),
    ensures
        r is Err,
        post.elements() == pre.elements(),
        post.next_handle() == pre.next_handle(),
{
}

} // verus!
