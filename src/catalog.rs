use vstd::prelude::*;
use std::sync::Arc;
use crate::bridge::new_bridge;
use crate::session::DataFusionContext;
use crate::text::{text_of, text_spec};

verus! {

/// A handle on a table-format catalog service, with a task scheduler of its
/// own on which the catalog's work runs.
pub struct IcebergCatalog<C> {
    catalog: C,
    bridge: tokio::runtime::Runtime,
}

impl<C> IcebergCatalog<C> {
    pub closed spec fn catalog_spec(&self) -> C {
        self.catalog
    }

    /// The catalog service.
    pub fn catalog(&self) -> (r: &C)
        ensures
            *r == self.catalog_spec(),
    {
        &self.catalog
    }

    /// The scheduler on which the catalog's work runs.
    pub fn bridge(&self) -> &tokio::runtime::Runtime {
        &self.bridge
    }
}

/// What a catalog is opened from: the backing store's location, the
/// catalog's name, and the scheduler that will run its work.
pub struct CatalogOpening {
    pub database_url: String,
    pub name: String,
    pub bridge: tokio::runtime::Runtime,
}

/// Checks the arguments for opening a catalog, then starts the catalog's
/// scheduler. Nothing comes back when a text is absent or not well-formed, or
/// when the scheduler cannot be started.
pub fn catalog_opening(database_url: Option<&[u8]>, name: Option<&[u8]>) -> (r: Option<
    CatalogOpening,
>)
    ensures
        (text_spec(database_url) is None || text_spec(name) is None) ==> r is None,
        r matches Some(o) ==> text_spec(database_url) == Some(o.database_url@) && text_spec(name)
            == Some(o.name@),
{
    let database_url = match text_of(database_url) {
        Some(u) => u,
        None => return None,
    };
    let name = match text_of(name) {
        Some(n) => n,
        None => return None,
    };
    match new_bridge() {
        Some(bridge) => Some(CatalogOpening { database_url, name, bridge }),
        None => None,
    }
}

/// Makes the catalog handle from an opening and what opening the catalog
/// service on its scheduler gave: nothing when that failed.
pub fn iceberg_catalog_new_sql<C, E>(opening: CatalogOpening, opened: Result<C, E>) -> (r: Option<
    IcebergCatalog<C>,
>)
    ensures
        r is Some <==> opened is Ok,
        r matches Some(c) ==> c.catalog_spec() == opened->Ok_0,
{
    let CatalogOpening { database_url: _, name: _, bridge } = opening;
    match opened {
        Ok(catalog) => Some(IcebergCatalog { catalog, bridge }),
        Err(_) => None,
    }
}

/// Closes a catalog handle: the reference to the service and the scheduler
/// are released. Nothing happens for an absent catalog.
pub fn iceberg_catalog_free<C>(catalog: Option<IcebergCatalog<C>>) {
    if let Some(c) = catalog {
        let IcebergCatalog { catalog: _, bridge: _ } = c;
    }
}

/// The primitive types a schema field can have.
#[derive(Clone, Copy, Debug, PartialEq, Eq, Structural)]
pub enum FieldType {
    Long,
    Int,
    Date,
}

/// One field of a schema under construction.
pub struct SchemaField {
    pub id: u32,
    pub name: String,
    pub field_type: FieldType,
    pub required: bool,
}

/// A schema field as a value.
pub ghost struct FieldView {
    pub id: u32,
    pub name: Seq<char>,
    pub field_type: FieldType,
    pub required: bool,
}

impl View for SchemaField {
    type V = FieldView;

    open spec fn view(&self) -> FieldView {
        FieldView {
            id: self.id,
            name: self.name@,
            field_type: self.field_type,
            required: self.required,
        }
    }
}

pub open spec fn field_views(fields: Seq<SchemaField>) -> Seq<FieldView> {
    fields.map_values(|f: SchemaField| f@)
}

/// A schema under construction: an ordered list of fields. It is live until
/// a table is made from it, and consumed from then on.
pub struct IcebergSchema {
    fields: Vec<SchemaField>,
    consumed: bool,
}

impl IcebergSchema {
    pub closed spec fn fields_spec(&self) -> Seq<FieldView> {
        field_views(self.fields@)
    }

    pub closed spec fn consumed_spec(&self) -> bool {
        self.consumed
    }

    /// Whether a table was made from this schema, which then holds nothing.
    pub fn is_consumed(&self) -> (r: bool)
        ensures
            r == self.consumed_spec(),
    {
        self.consumed
    }
}

/// Starts an empty, live schema.
pub fn iceberg_schema_new() -> (r: IcebergSchema)
    ensures
        r.fields_spec() == Seq::<FieldView>::empty(),
        !r.consumed_spec(),
{
    let r = IcebergSchema { fields: Vec::new(), consumed: false };
    assert(r.fields_spec() =~= Seq::<FieldView>::empty());
    r
}

/// What adding a field does: on a live schema and a well-formed name, the
/// field goes at the end and `true` comes back; otherwise nothing changes and
/// `false` comes back.
pub open spec fn field_added(
    before: IcebergSchema,
    after: IcebergSchema,
    id: u32,
    name: Option<&[u8]>,
    field_type: FieldType,
    required: bool,
    r: bool,
) -> bool {
    &&& r == (!before.consumed_spec() && text_spec(name) is Some)
    &&& r ==> after.fields_spec() == before.fields_spec().push(
        FieldView { id, name: text_spec(name)->0, field_type, required },
    ) && !after.consumed_spec()
    &&& !r ==> after == before
}

fn add_field(
    schema: Option<&mut IcebergSchema>,
    id: u32,
    name: Option<&[u8]>,
    field_type: FieldType,
    required: bool,
) -> (r: bool)
    ensures
        schema is None ==> !r,
        schema matches Some(s) ==> field_added(*s, *final(s), id, name, field_type, required, r),
{
    match schema {
        Some(s) => {
            if s.consumed {
                return false;
            }
            match text_of(name) {
                Some(n) => {
                    let field = SchemaField { id, name: n, field_type, required };
                    let ghost before = s.fields@;
                    let ghost added = field@;
                    s.fields.push(field);
                    assert(field_views(s.fields@) =~= field_views(before).push(added));
                    true
                },
                None => false,
            }
        },
        None => false,
    }
}

/// Adds a 64-bit integer field.
pub fn iceberg_schema_add_long_field(
    schema: Option<&mut IcebergSchema>,
    id: u32,
    name: Option<&[u8]>,
    required: bool,
) -> (r: bool)
    ensures
        schema is None ==> !r,
        schema matches Some(s) ==> field_added(
            *s,
            *final(s),
            id,
            name,
            FieldType::Long,
            required,
            r,
        ),
{
    add_field(schema, id, name, FieldType::Long, required)
}

/// Adds a 32-bit integer field.
pub fn iceberg_schema_add_int_field(
    schema: Option<&mut IcebergSchema>,
    id: u32,
    name: Option<&[u8]>,
    required: bool,
) -> (r: bool)
    ensures
        schema is None ==> !r,
        schema matches Some(s) ==> field_added(
            *s,
            *final(s),
            id,
            name,
            FieldType::Int,
            required,
            r,
        ),
{
    add_field(schema, id, name, FieldType::Int, required)
}

/// Adds a date field.
pub fn iceberg_schema_add_date_field(
    schema: Option<&mut IcebergSchema>,
    id: u32,
    name: Option<&[u8]>,
    required: bool,
) -> (r: bool)
    ensures
        schema is None ==> !r,
        schema matches Some(s) ==> field_added(
            *s,
            *final(s),
            id,
            name,
            FieldType::Date,
            required,
            r,
        ),
{
    add_field(schema, id, name, FieldType::Date, required)
}

/// Releases a schema, live or consumed. Nothing happens for an absent one.
pub fn iceberg_schema_free(schema: Option<IcebergSchema>) {
    if let Some(s) = schema {
        let IcebergSchema { fields: _, consumed: _ } = s;
    }
}


/// How a partition field derives its key from its source field.
#[derive(Clone, Copy, Debug, PartialEq, Eq, Structural)]
pub enum Transform {
    /// The day a date or timestamp falls on.
    Day,
}

/// One field of a partition spec under construction.
pub struct PartitionFieldDef {
    pub source_id: u32,
    pub field_id: u32,
    pub name: String,
    pub transform: Transform,
}

/// A partition field as a value.
pub ghost struct PartitionView {
    pub source_id: u32,
    pub field_id: u32,
    pub name: Seq<char>,
    pub transform: Transform,
}

impl View for PartitionFieldDef {
    type V = PartitionView;

    open spec fn view(&self) -> PartitionView {
        PartitionView {
            source_id: self.source_id,
            field_id: self.field_id,
            name: self.name@,
            transform: self.transform,
        }
    }
}

pub open spec fn partition_views(fields: Seq<PartitionFieldDef>) -> Seq<PartitionView> {
    fields.map_values(|f: PartitionFieldDef| f@)
}

/// A partition spec under construction: an ordered list of partition
/// fields. It is live until a table is made from it, and consumed from then
/// on.
pub struct IcebergPartitionSpec {
    fields: Vec<PartitionFieldDef>,
    consumed: bool,
}

impl IcebergPartitionSpec {
    pub closed spec fn fields_spec(&self) -> Seq<PartitionView> {
        partition_views(self.fields@)
    }

    pub closed spec fn consumed_spec(&self) -> bool {
        self.consumed
    }

    /// Whether a table was made from this spec, which then holds nothing.
    pub fn is_consumed(&self) -> (r: bool)
        ensures
            r == self.consumed_spec(),
    {
        self.consumed
    }
}

/// Starts an empty, live partition spec.
pub fn iceberg_partition_spec_new() -> (r: IcebergPartitionSpec)
    ensures
        r.fields_spec() == Seq::<PartitionView>::empty(),
        !r.consumed_spec(),
{
    let r = IcebergPartitionSpec { fields: Vec::new(), consumed: false };
    assert(r.fields_spec() =~= Seq::<PartitionView>::empty());
    r
}

/// Adds a partition field keyed on the day of source field `source_id`. On a
/// live spec and a well-formed name the field goes at the end and `true`
/// comes back; otherwise nothing changes and `false` comes back.
pub fn iceberg_partition_spec_add_day_field(
    spec: Option<&mut IcebergPartitionSpec>,
    source_id: u32,
    field_id: u32,
    name: Option<&[u8]>,
) -> (r: bool)
    ensures
        spec is None ==> !r,
        spec matches Some(p) ==> {
            &&& r == (!p.consumed_spec() && text_spec(name) is Some)
            &&& r ==> final(p).fields_spec() == p.fields_spec().push(
                PartitionView { source_id, field_id, name: text_spec(name)->0, transform: Transform::Day },
            ) && !final(p).consumed_spec()
            &&& !r ==> *final(p) == *p
        },
{
    match spec {
        Some(p) => {
            if p.consumed {
                return false;
            }
            match text_of(name) {
                Some(n) => {
                    let field = PartitionFieldDef {
                        source_id,
                        field_id,
                        name: n,
                        transform: Transform::Day,
                    };
                    let ghost before = p.fields@;
                    let ghost added = field@;
                    p.fields.push(field);
                    assert(partition_views(p.fields@) =~= partition_views(before).push(added));
                    true
                },
                None => false,
            }
        },
        None => false,
    }
}

/// Releases a partition spec, live or consumed. Nothing happens for an absent
/// one.
pub fn iceberg_partition_spec_free(spec: Option<IcebergPartitionSpec>) {
    if let Some(p) = spec {
        let IcebergPartitionSpec { fields: _, consumed: _ } = p;
    }
}

/// Everything a table is created from: its name, its location, the
/// namespace it goes under, and the fields of its schema and of its partition
/// spec, taken over from the two builders.
pub struct TableDefinition {
    pub name: String,
    pub location: String,
    pub namespace: String,
    pub schema: Vec<SchemaField>,
    pub partition_spec: Vec<PartitionFieldDef>,
}

/// Whether the arguments of a table creation allow it: live builders, a
/// catalog, and three well-formed texts.
pub open spec fn table_create_allowed<C>(
    name: Option<&[u8]>,
    location: Option<&[u8]>,
    schema: Option<&mut IcebergSchema>,
    partition_spec: Option<&mut IcebergPartitionSpec>,
    catalog: Option<&IcebergCatalog<C>>,
    namespace_name: Option<&[u8]>,
) -> bool {
    &&& text_spec(name) is Some
    &&& text_spec(location) is Some
    &&& text_spec(namespace_name) is Some
    &&& schema matches Some(s) && !s.consumed_spec()
    &&& partition_spec matches Some(p) && !p.consumed_spec()
    &&& catalog is Some
}

/// The first steps of making a table: checks every argument and then
/// consumes both builders, whose fields pass into the definition that comes
/// back. The builders are consumed from then on, whatever becomes of the
/// table. Where an argument is missing or bad, nothing comes back and neither
/// builder changes.
pub fn iceberg_table_create<C>(
    name: Option<&[u8]>,
    location: Option<&[u8]>,
    schema: Option<&mut IcebergSchema>,
    partition_spec: Option<&mut IcebergPartitionSpec>,
    catalog: Option<&IcebergCatalog<C>>,
    namespace_name: Option<&[u8]>,
) -> (r: Option<TableDefinition>)
    ensures
        r is Some <==> table_create_allowed(
            name,
            location,
            schema,
            partition_spec,
            catalog,
            namespace_name,
        ),
        r matches Some(d) ==> {
            &&& text_spec(name) == Some(d.name@)
            &&& text_spec(location) == Some(d.location@)
            &&& text_spec(namespace_name) == Some(d.namespace@)
            &&& field_views(d.schema@) == schema->0.fields_spec()
            &&& partition_views(d.partition_spec@) == partition_spec->0.fields_spec()
        },
        schema matches Some(s) ==> if r is Some {
            final(s).consumed_spec() && final(s).fields_spec().len() == 0
        } else {
            *final(s) == *s
        },
        partition_spec matches Some(p) ==> if r is Some {
            final(p).consumed_spec() && final(p).fields_spec().len() == 0
        } else {
            *final(p) == *p
        },
{
    let s = match schema {
        Some(s) => s,
        None => return None,
    };
    let p = match partition_spec {
        Some(p) => p,
        None => return None,
    };
    if catalog.is_none() || s.consumed || p.consumed {
        return None;
    }
    let name = match text_of(name) {
        Some(t) => t,
        None => return None,
    };
    let location = match text_of(location) {
        Some(t) => t,
        None => return None,
    };
    let namespace = match text_of(namespace_name) {
        Some(t) => t,
        None => return None,
    };
    let mut schema_fields: Vec<SchemaField> = Vec::new();
    std::mem::swap(&mut schema_fields, &mut s.fields);
    s.consumed = true;
    let mut partition_fields: Vec<PartitionFieldDef> = Vec::new();
    std::mem::swap(&mut partition_fields, &mut p.fields);
    p.consumed = true;
    assert(field_views(s.fields@).len() == 0);
    assert(partition_views(p.fields@).len() == 0);
    Some(
        TableDefinition {
            name,
            location,
            namespace,
            schema: schema_fields,
            partition_spec: partition_fields,
        },
    )
}

/// A created table, wrapped so that queries can read it. Registering it in a
/// context shares it; the handle itself stays the caller's.
pub struct IcebergTable<T> {
    table: Arc<T>,
}

impl<T> IcebergTable<T> {
    pub closed spec fn table_spec(&self) -> T {
        *self.table
    }
}

/// Makes the table handle from what creating the table in the catalog gave:
/// nothing when that failed.
pub fn table_handle<T, E>(created: Result<T, E>) -> (r: Option<IcebergTable<T>>)
    ensures
        r is Some <==> created is Ok,
        r matches Some(t) ==> t.table_spec() == created->Ok_0,
{
    match created {
        Ok(table) => Some(IcebergTable { table: Arc::new(table) }),
        Err(_) => None,
    }
}

/// Releases a table handle. Contexts it was registered in keep their own
/// shared reference. Nothing happens for an absent handle.
pub fn iceberg_table_free<T>(table: Option<IcebergTable<T>>) {
    if let Some(t) = table {
        let IcebergTable { table: _ } = t;
    }
}

/// Relies on std's Arc::clone: a second reference to the same value.
#[verifier::external_body]
fn share<T>(a: &Arc<T>) -> (r: Arc<T>)
    ensures
        *r == **a,
{
    Arc::clone(a)
}

/// Checks the arguments of a table registration: a context, a name that is
/// present and well-formed, and a table. Hands back the name and a shared
/// reference to the table for the context to hold, or nothing, in which case
/// the registration fails before any engine work.
pub fn table_registration<S, T>(
    ctx: Option<&DataFusionContext<S>>,
    table_name: Option<&[u8]>,
    table: Option<&IcebergTable<T>>,
) -> (r: Option<(String, Arc<T>)>)
    ensures
        r is Some <==> (ctx is Some && text_spec(table_name) is Some && table is Some),
        r matches Some((n, t)) ==> text_spec(table_name) == Some(n@) && *t
            == table->0.table_spec(),
{
    if ctx.is_none() {
        return None;
    }
    let t = match table {
        Some(t) => t,
        None => return None,
    };
    match text_of(table_name) {
        Some(n) => Some((n, share(&t.table))),
        None => None,
    }
}

} // verus!
