//! The positional parameter builder: an ordered source becomes an ordered
//! list of bindable storage values, one entry per element.

use vstd::prelude::*;

use crate::error::{spec_ser_unsupported_msg, Error, SpecError};
use crate::ser::tosql::{spec_encode_value, ToSqlSerializer};
use crate::ser::{shape_token, spec_shape_token};
use crate::source::SourceValue;
use crate::value::{spec_values, SpecValue, StorageValue};

verus! {

/// Every element of an ordered source encoded to one storage value, left to
/// right, stopping at the first failure.
pub open spec fn spec_encode_elements(s: Seq<SourceValue>) -> Result<Seq<SpecValue>, SpecError>
    decreases s.len(),
{
    if s.len() == 0 {
        Ok(Seq::empty())
    } else {
        match spec_encode_elements(s.drop_last()) {
            Err(e) => Err(e),
            Ok(pre) => match spec_encode_value(s.last()) {
                Err(e) => Err(e),
                Ok(sv) => Ok(pre.push(sv)),
            },
        }
    }
}

/// A failure in a prefix settles the whole element encoding.
pub proof fn lemma_encode_elements_err_prefix(s: Seq<SourceValue>, i: int)
    requires
        0 <= i <= s.len(),
        spec_encode_elements(s.subrange(0, i)) is Err,
    ensures
        spec_encode_elements(s) == spec_encode_elements(s.subrange(0, i)),
    decreases s.len() - i,
{
    if i == s.len() {
        assert(s.subrange(0, i) =~= s);
    } else {
        assert(s.subrange(0, i + 1).drop_last() =~= s.subrange(0, i));
        lemma_encode_elements_err_prefix(s, i + 1);
    }
}

/// The parameter list an ordered source encodes to:
///
/// - a sequence, tuple, tuple struct or tuple variant yields one entry per
///   element, in order;
/// - present optionals and newtype wrappers are transparent;
/// - a name-requiring source (map, record or record variant) is
///   `Unsupported`;
/// - any other source is a bare primitive and yields a single-entry list.
pub open spec fn spec_encode_positional(v: SourceValue) -> Result<Seq<SpecValue>, SpecError>
    decreases v,
{
    match v {
        SourceValue::Present(inner) => spec_encode_positional(*inner),
        SourceValue::NewtypeStruct(_, inner) => spec_encode_positional(*inner),
        SourceValue::NewtypeVariant(_, inner) => spec_encode_positional(*inner),
        SourceValue::Sequence(es) => spec_encode_elements(es@),
        SourceValue::Tuple(es) => spec_encode_elements(es@),
        SourceValue::TupleStruct(_, es) => spec_encode_elements(es@),
        SourceValue::TupleVariant(_, es) => spec_encode_elements(es@),
        SourceValue::Mapping(_) | SourceValue::Struct(_, _) | SourceValue::StructVariant(_, _) => Err(
            SpecError::Unsupported(spec_ser_unsupported_msg(spec_shape_token(v))),
        ),
        _ => match spec_encode_value(v) {
            Err(e) => Err(e),
            Ok(sv) => Ok(seq![sv]),
        },
    }
}

/// Builder for positional bound query arguments.
pub struct PositionalSliceSerializer {
    /// The parameter list built so far.
    pub result: Vec<StorageValue>,
}

impl Default for PositionalSliceSerializer {
    /// A builder holding no parameters yet.
    fn default() -> (r: Self)
        ensures
            r.result@ == Seq::<StorageValue>::empty(),
    {
        PositionalSliceSerializer { result: Vec::new() }
    }
}

impl PositionalSliceSerializer {
    /// Encode an ordered source, appending one entry per element to the
    /// list built so far, per [`spec_encode_positional`].
    #[verifier::loop_isolation(false)]
    pub fn serialize_value(self, v: &SourceValue) -> (r: Result<Vec<StorageValue>, Error>)
        ensures
            match spec_encode_positional(*v) {
                Ok(vals) => r matches Ok(out) && spec_values(out@) == spec_values(self.result@)
                    + vals,
                Err(e) => r matches Err(a) && a@ == e,
            },
        decreases v,
    {
        let mut this = self;
        match v {
            SourceValue::Present(inner) => this.serialize_value(&**inner),
            SourceValue::NewtypeStruct(_, inner) => this.serialize_value(&**inner),
            SourceValue::NewtypeVariant(_, inner) => this.serialize_value(&**inner),
            SourceValue::Sequence(es)
            | SourceValue::Tuple(es)
            | SourceValue::TupleStruct(_, es)
            | SourceValue::TupleVariant(_, es) => {
                let ghost base = this.result@;
                let mut i: usize = 0;
                while i < es.len()
                    invariant
                        i <= es.len(),
                        spec_encode_elements(es@.subrange(0, i as int)) matches Ok(pre)
                            && spec_values(this.result@) == spec_values(base) + pre,
                    decreases es.len() - i,
                {
                    let ghost pre_result = this.result@;
                    match ToSqlSerializer.serialize_value(&es[i]) {
                        Ok(sv) => {
                            this.result.push(sv);
                            proof {
                                assert(es@.subrange(0, i + 1).drop_last() =~= es@.subrange(
                                    0,
                                    i as int,
                                ));
                                assert(spec_values(pre_result.push(sv)) =~= spec_values(
                                    pre_result,
                                ).push(sv@));
                            }
                            i += 1;
                        },
                        Err(e) => {
                            proof {
                                assert(es@.subrange(0, i + 1).drop_last() =~= es@.subrange(
                                    0,
                                    i as int,
                                ));
                                lemma_encode_elements_err_prefix(es@, i + 1);
                            }
                            return Err(e);
                        },
                    }
                }
                proof {
                    assert(es@.subrange(0, es@.len() as int) =~= es@);
                }
                Ok(this.result)
            },
            SourceValue::Mapping(_) | SourceValue::Struct(_, _) | SourceValue::StructVariant(
                _,
                _,
            ) => Err(Error::ser_unsupported(shape_token(v))),
            _ => {
                match ToSqlSerializer.serialize_value(v) {
                    Ok(sv) => {
                        let ghost pre_result = this.result@;
                        this.result.push(sv);
                        proof {
                            assert(spec_values(pre_result.push(sv)) =~= spec_values(
                                pre_result,
                            ).push(sv@));
                            assert(spec_values(pre_result).push(sv@) =~= spec_values(pre_result)
                                + seq![sv@]);
                        }
                        Ok(this.result)
                    },
                    Err(e) => Err(e),
                }
            },
        }
    }
}

} // verus!
