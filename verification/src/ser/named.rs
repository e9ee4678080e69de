//! The named parameter builder: a keyed source becomes a list of
//! (name, bindable value) pairs, each name carrying the `:` bind-marker
//! prefix, optionally restricted to an allow-list of fields.

use vstd::prelude::*;
use vstd::string::StringExecFns;

use crate::error::{spec_ser_unsupported_msg, Error, SpecError};
use crate::ser::slice::{spec_entries, NamedParamSlice};
use crate::ser::tosql::{char_to_text, spec_encode_value, ToSqlSerializer};
use crate::ser::{shape_token, spec_shape_token};
use crate::source::SourceValue;
use crate::value::{spec_strings, SpecValue, StorageValue};

verus! {

/// The column name a map key encodes to: only characters and strings carry
/// name information.
pub open spec fn spec_key_name(v: SourceValue) -> Result<Seq<char>, SpecError> {
    match v {
        SourceValue::Char(c) => Ok(seq![c]),
        SourceValue::Text(s) => Ok(s@),
        SourceValue::TupleVariant(_, _) => Err(
            SpecError::Unsupported(spec_ser_unsupported_msg("type_variant"@)),
        ),
        _ => Err(SpecError::Unsupported(spec_ser_unsupported_msg(spec_shape_token(v)))),
    }
}

/// Whether a field or key is emitted: an empty allow-list admits every name,
/// a non-empty one exactly the names it holds.
pub open spec fn spec_entry_allowed(key: Seq<char>, only: Seq<Seq<char>>) -> bool {
    only.len() == 0 || only.contains(key)
}

/// The named entries a record's fields encode to, in declaration order:
/// fields outside the allow-list are silently dropped, every emitted name is
/// prefixed with the bind marker, and the first failing emitted field aborts
/// the encode.
pub open spec fn spec_encode_named_fields(
    fields: Seq<(String, SourceValue)>,
    only: Seq<Seq<char>>,
) -> Result<Seq<(Seq<char>, SpecValue)>, SpecError>
    decreases fields.len(),
{
    if fields.len() == 0 {
        Ok(Seq::empty())
    } else {
        match spec_encode_named_fields(fields.drop_last(), only) {
            Err(e) => Err(e),
            Ok(pre) => {
                let key = fields.last().0;
                if spec_entry_allowed(key@, only) {
                    match spec_encode_value(fields.last().1) {
                        Err(e) => Err(e),
                        Ok(sv) => Ok(pre.push((":"@ + key@, sv))),
                    }
                } else {
                    Ok(pre)
                }
            },
        }
    }
}

/// A failure in a prefix settles the whole field encoding.
pub proof fn lemma_named_fields_err_prefix(
    fields: Seq<(String, SourceValue)>,
    only: Seq<Seq<char>>,
    i: int,
)
    requires
        0 <= i <= fields.len(),
        spec_encode_named_fields(fields.subrange(0, i), only) is Err,
    ensures
        spec_encode_named_fields(fields, only) == spec_encode_named_fields(
            fields.subrange(0, i),
            only,
        ),
    decreases fields.len() - i,
{
    if i == fields.len() {
        assert(fields.subrange(0, i) =~= fields);
    } else {
        assert(fields.subrange(0, i + 1).drop_last() =~= fields.subrange(0, i));
        lemma_named_fields_err_prefix(fields, only, i + 1);
    }
}

/// The named entries a map's entries encode to, in iteration order: each
/// key must itself encode to a string, non-listed keys are silently
/// dropped, and the first failure aborts the encode.
pub open spec fn spec_encode_named_entries(
    entries: Seq<(SourceValue, SourceValue)>,
    only: Seq<Seq<char>>,
) -> Result<Seq<(Seq<char>, SpecValue)>, SpecError>
    decreases entries.len(),
{
    if entries.len() == 0 {
        Ok(Seq::empty())
    } else {
        match spec_encode_named_entries(entries.drop_last(), only) {
            Err(e) => Err(e),
            Ok(pre) => match spec_key_name(entries.last().0) {
                Err(e) => Err(e),
                Ok(name) => if spec_entry_allowed(name, only) {
                    match spec_encode_value(entries.last().1) {
                        Err(e) => Err(e),
                        Ok(sv) => Ok(pre.push((":"@ + name, sv))),
                    }
                } else {
                    Ok(pre)
                },
            },
        }
    }
}

/// A failure in a prefix settles the whole entry encoding.
pub proof fn lemma_named_entries_err_prefix(
    entries: Seq<(SourceValue, SourceValue)>,
    only: Seq<Seq<char>>,
    i: int,
)
    requires
        0 <= i <= entries.len(),
        spec_encode_named_entries(entries.subrange(0, i), only) is Err,
    ensures
        spec_encode_named_entries(entries, only) == spec_encode_named_entries(
            entries.subrange(0, i),
            only,
        ),
    decreases entries.len() - i,
{
    if i == entries.len() {
        assert(entries.subrange(0, i) =~= entries);
    } else {
        assert(entries.subrange(0, i + 1).drop_last() =~= entries.subrange(0, i));
        lemma_named_entries_err_prefix(entries, only, i + 1);
    }
}

/// The named parameter list a keyed source encodes to:
///
/// - a map yields one entry per key/value pair whose key is in the
///   allow-list, keys encoded through the string-only key encoder;
/// - a record or record variant yields one entry per allow-listed field,
///   under the field's own name;
/// - present optionals and newtype wrappers are transparent;
/// - every other source carries no name information and is `Unsupported`.
pub open spec fn spec_encode_named(v: SourceValue, only: Seq<Seq<char>>) -> Result<
    Seq<(Seq<char>, SpecValue)>,
    SpecError,
>
    decreases v,
{
    match v {
        SourceValue::Mapping(entries) => spec_encode_named_entries(entries@, only),
        SourceValue::Struct(_, fields) => spec_encode_named_fields(fields@, only),
        SourceValue::StructVariant(_, fields) => spec_encode_named_fields(fields@, only),
        SourceValue::Present(inner) => spec_encode_named(*inner, only),
        SourceValue::NewtypeStruct(_, inner) => spec_encode_named(*inner, only),
        SourceValue::NewtypeVariant(_, inner) => spec_encode_named(*inner, only),
        SourceValue::UnitVariant(_) => Err(
            SpecError::Unsupported(spec_ser_unsupported_msg("&str"@)),
        ),
        _ => Err(SpecError::Unsupported(spec_ser_unsupported_msg(spec_shape_token(v)))),
    }
}

/// Encode one map key to its column name, per [`spec_key_name`].
fn column_name(v: &SourceValue) -> (r: Result<String, Error>)
    ensures
        match spec_key_name(*v) {
            Ok(n) => r matches Ok(s) && s@ == n,
            Err(e) => r matches Err(a) && a@ == e,
        },
{
    match v {
        SourceValue::Char(c) => Ok(char_to_text(*c)),
        SourceValue::Text(s) => Ok(s.clone()),
        SourceValue::TupleVariant(_, _) => Err(Error::ser_unsupported("type_variant")),
        _ => Err(Error::ser_unsupported(shape_token(v))),
    }
}

/// Whether `key` passes the allow-list, per [`spec_entry_allowed`].
fn entry_allowed(only_fields: &Vec<String>, key: &String) -> (r: bool)
    ensures
        r == spec_entry_allowed(key@, spec_strings(only_fields@)),
{
    if only_fields.len() == 0 {
        return true;
    }
    let mut j: usize = 0;
    while j < only_fields.len()
        invariant
            j <= only_fields.len(),
            forall|k: int| 0 <= k < j ==> only_fields@[k]@ != key@,
        decreases only_fields.len() - j,
    {
        if only_fields[j] == *key {
            proof {
                assert(spec_strings(only_fields@)[j as int] == key@);
            }
            return true;
        }
        j += 1;
    }
    proof {
        assert forall|k: int| 0 <= k < spec_strings(only_fields@).len() implies spec_strings(
            only_fields@,
        )[k] != key@ by {
            assert(spec_strings(only_fields@)[k] == only_fields@[k]@);
        }
    }
    false
}

/// Builder for named bound query arguments.
pub struct NamedSliceSerializer {
    /// The entries emitted so far.
    pub result: NamedParamSlice,
    /// The allow-list: empty admits every field.
    pub only_fields: Vec<String>,
}

impl Default for NamedSliceSerializer {
    /// A builder with no entries and no allow-list.
    fn default() -> (r: Self)
        ensures
            r.result@ == Seq::<(Seq<char>, SpecValue)>::empty(),
            r.only_fields@ == Seq::<String>::empty(),
    {
        NamedSliceSerializer { result: NamedParamSlice::default(), only_fields: Vec::new() }
    }
}

impl NamedSliceSerializer {
    /// A builder that emits only the named fields.
    pub fn with_only_fields(only_fields: Vec<String>) -> (r: Self)
        ensures
            r.result@ == Seq::<(Seq<char>, SpecValue)>::empty(),
            r.only_fields@ == only_fields@,
    {
        NamedSliceSerializer { result: NamedParamSlice::default(), only_fields }
    }

    /// Emit one field or map entry: silently dropped when the allow-list
    /// excludes it, else its value is encoded and appended under the
    /// bind-marker-prefixed name.
    fn add_entry(&mut self, key: &String, value: &SourceValue) -> (r: Result<(), Error>)
        ensures
            final(self).only_fields@ == old(self).only_fields@,
            spec_entry_allowed(key@, spec_strings(old(self).only_fields@)) ==> match
                spec_encode_value(*value) {
                Ok(sv) => r is Ok && final(self).result@ == old(self).result@.push(
                    (":"@ + key@, sv),
                ),
                Err(e) => (r matches Err(a) && a@ == e) && final(self).result@ == old(self).result@,
            },
            !spec_entry_allowed(key@, spec_strings(old(self).only_fields@)) ==> r is Ok && final(self).result@
                == old(self).result@,
    {
        if entry_allowed(&self.only_fields, key) {
            match ToSqlSerializer.serialize_value(value) {
                Ok(sv) => {
                    let mut name = String::from_str(":");
                    name.append(key.as_str());
                    let ghost pre = self.result.0@;
                    self.result.0.push((name, sv));
                    proof {
                        assert(spec_entries(pre.push((name, sv))) =~= spec_entries(pre).push(
                            (name@, sv@),
                        ));
                    }
                    Ok(())
                },
                Err(e) => Err(e),
            }
        } else {
            Ok(())
        }
    }

    /// Encode a keyed source into the named parameter list built so far,
    /// per [`spec_encode_named`].
    #[verifier::loop_isolation(false)]
    pub fn serialize_value(self, v: &SourceValue) -> (r: Result<NamedParamSlice, Error>)
        ensures
            match spec_encode_named(*v, spec_strings(self.only_fields@)) {
                Ok(entries) => r matches Ok(out) && out@ == self.result@ + entries,
                Err(e) => r matches Err(a) && a@ == e,
            },
        decreases v,
    {
        let mut this = self;
        match v {
            SourceValue::Present(inner) => this.serialize_value(&**inner),
            SourceValue::NewtypeStruct(_, inner) => this.serialize_value(&**inner),
            SourceValue::NewtypeVariant(_, inner) => this.serialize_value(&**inner),
            SourceValue::Struct(_, fields) | SourceValue::StructVariant(_, fields) => {
                let ghost base = this.result@;
                let ghost only = spec_strings(this.only_fields@);
                let mut i: usize = 0;
                while i < fields.len()
                    invariant
                        i <= fields.len(),
                        this.only_fields@ == self.only_fields@,
                        spec_encode_named_fields(fields@.subrange(0, i as int), only) matches Ok(
                            pre,
                        ) && this.result@ == base + pre,
                    decreases fields.len() - i,
                {
                    let pair = &fields[i];
                    let ghost pre_result = this.result@;
                    match this.add_entry(&pair.0, &pair.1) {
                        Ok(()) => {
                            proof {
                                assert(fields@.subrange(0, i + 1).drop_last() =~= fields@.subrange(
                                    0,
                                    i as int,
                                ));
                            }
                            i += 1;
                        },
                        Err(e) => {
                            proof {
                                assert(fields@.subrange(0, i + 1).drop_last() =~= fields@.subrange(
                                    0,
                                    i as int,
                                ));
                                lemma_named_fields_err_prefix(fields@, only, i + 1);
                            }
                            return Err(e);
                        },
                    }
                }
                proof {
                    assert(fields@.subrange(0, fields@.len() as int) =~= fields@);
                }
                Ok(this.result)
            },
            SourceValue::Mapping(entries) => {
                let ghost base = this.result@;
                let ghost only = spec_strings(this.only_fields@);
                let mut i: usize = 0;
                while i < entries.len()
                    invariant
                        i <= entries.len(),
                        this.only_fields@ == self.only_fields@,
                        spec_encode_named_entries(entries@.subrange(0, i as int), only) matches Ok(
                            pre,
                        ) && this.result@ == base + pre,
                    decreases entries.len() - i,
                {
                    let pair = &entries[i];
                    proof {
                        assert(entries@.subrange(0, i + 1).drop_last() =~= entries@.subrange(
                            0,
                            i as int,
                        ));
                    }
                    match column_name(&pair.0) {
                        Err(e) => {
                            proof {
                                lemma_named_entries_err_prefix(entries@, only, i + 1);
                            }
                            return Err(e);
                        },
                        Ok(name) => {
                            match this.add_entry(&name, &pair.1) {
                                Ok(()) => {
                                    i += 1;
                                },
                                Err(e) => {
                                    proof {
                                        lemma_named_entries_err_prefix(entries@, only, i + 1);
                                    }
                                    return Err(e);
                                },
                            }
                        },
                    }
                }
                proof {
                    assert(entries@.subrange(0, entries@.len() as int) =~= entries@);
                }
                Ok(this.result)
            },
            SourceValue::UnitVariant(_) => Err(Error::ser_unsupported("&str")),
            _ => Err(Error::ser_unsupported(shape_token(v))),
        }
    }
}

} // verus!
