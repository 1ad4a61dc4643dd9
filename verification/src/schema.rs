//! Building the search index's schema, field by field, from its layout.

use vstd::prelude::*;
use crate::search::{field_name, search_schema, FieldKind, FieldSpec, SearchField};
use tantivy::schema::{Schema, SchemaBuilder, STORED, TEXT};

verus! {

/// A schema being built by `tantivy`.
#[verifier::external_type_specification]
#[verifier::external_body]
pub struct ExSchemaBuilder(SchemaBuilder);

/// A finished `tantivy` schema.
#[verifier::external_type_specification]
#[verifier::external_body]
pub struct ExSchema(Schema);

/// A declared field, as plain values: its name, whether it holds JSON
/// objects (else text), whether it can be searched, whether it is stored.
pub open spec fn schema_entry(f: FieldSpec) -> (Seq<char>, bool, bool, bool) {
    (field_name(f.field), f.kind == FieldKind::Json, f.indexed, f.stored)
}

/// Whether a field named `name` can be declared after `entries`: the name is
/// not empty, does not start with '-', and is not declared yet.
pub open spec fn can_declare(entries: Seq<(Seq<char>, bool, bool, bool)>, name: Seq<char>) -> bool {
    &&& name.len() > 0
    &&& name[0] != '-'
    &&& forall|i: int| 0 <= i < entries.len() ==> #[trigger] entries[i].0 != name
}

/// The fields declared so far in a schema builder, in declaration order.
pub uninterp spec fn builder_entries(b: SchemaBuilder) -> Seq<(Seq<char>, bool, bool, bool)>;

/// The fields of a finished schema, in declaration order.
pub uninterp spec fn schema_entries(s: Schema) -> Seq<(Seq<char>, bool, bool, bool)>;

/// Trusted: `Schema::builder`, a builder with no field declared.
#[verifier::external_body]
fn new_schema_builder() -> (r: SchemaBuilder)
    ensures
        builder_entries(r) == Seq::<(Seq<char>, bool, bool, bool)>::empty(),
{
    Schema::builder()
}

/// Trusted: `SchemaBuilder::add_text_field` with `TEXT`: a text field that
/// is searchable and not stored, declared last. It panics on a name that is
/// empty, starts with '-' or is declared already.
#[verifier::external_body]
fn add_searchable_text(b: &mut SchemaBuilder, name: &str)
    requires
        can_declare(builder_entries(*old(b)), name@),
    ensures
        builder_entries(*final(b)) == builder_entries(*old(b)).push((name@, false, true, false)),
{
    b.add_text_field(name, TEXT);
}

/// Trusted: `SchemaBuilder::add_text_field` with `TEXT | STORED`: a text
/// field that is searchable and stored, declared last. It panics as
/// `add_searchable_text` does.
#[verifier::external_body]
fn add_stored_searchable_text(b: &mut SchemaBuilder, name: &str)
    requires
        can_declare(builder_entries(*old(b)), name@),
    ensures
        builder_entries(*final(b)) == builder_entries(*old(b)).push((name@, false, true, true)),
{
    b.add_text_field(name, TEXT | STORED);
}

/// Trusted: `SchemaBuilder::add_json_field` with `STORED`: a JSON object
/// field that is stored and not searchable, declared last. It panics as
/// `add_searchable_text` does.
#[verifier::external_body]
fn add_stored_json(b: &mut SchemaBuilder, name: &str)
    requires
        can_declare(builder_entries(*old(b)), name@),
    ensures
        builder_entries(*final(b)) == builder_entries(*old(b)).push((name@, true, false, true)),
{
    b.add_json_field(name, STORED);
}

/// Trusted: `SchemaBuilder::build`, a schema of the declared fields, in
/// order.
#[verifier::external_body]
fn finish_schema(b: SchemaBuilder) -> (r: Schema)
    ensures
        schema_entries(r) == builder_entries(b),
{
    b.build()
}

/// The schema of the song index: each field of `search_schema`, in order,
/// with its kind and whether it is searchable and stored.
pub fn build_schema() -> (r: Schema)
    ensures
        schema_entries(r) == search_schema().map_values(|f: FieldSpec| schema_entry(f)),
{
    proof {
        reveal_strlit("song_id");
        reveal_strlit("song_title");
        reveal_strlit("song_artist");
        reveal_strlit("song_album");
        reveal_strlit("song_metadata");
        assert("song_album"@[5] != "song_title"@[5]);
    }
    let mut b = new_schema_builder();
    add_stored_searchable_text(&mut b, SearchField::SongId.name());
    add_searchable_text(&mut b, SearchField::SongTitle.name());
    add_searchable_text(&mut b, SearchField::SongArtist.name());
    add_searchable_text(&mut b, SearchField::SongAlbum.name());
    add_stored_json(&mut b, SearchField::SongMetadata.name());
    let r = finish_schema(b);
    assert(schema_entries(r) =~= search_schema().map_values(|f: FieldSpec| schema_entry(f)));
    r
}

} // verus!
