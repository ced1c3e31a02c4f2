//! The name under which a listing announces a crate.
use crate::parse_context::ParseContext;
use crate::parse_error::{failure_at, ParseError, ParseErrorKind};
use crate::text::{
    find_last, lemma_ascii_text, lemma_boundary_after_scalar, lemma_empty_text, lemma_rfind_from,
    lemma_str_bytes_valid, rfind, slice, trim, trimmed,
};
use crate::utils::{exclusive_split_at_index, is_valid_uuid, valid_uuid};
use vstd::prelude::*;
use vstd::string::*;

verus! {

/// Represents the name parsed from a 'Running' line, such as
/// "Running /home/phil/repos/rtest/target/debug/deps/example_lib_tests-9bdf7ee7378a8684"
/// or the name parsed from a 'Doc-tests' line such as
/// "Doc-tests example_lib_tests".
#[derive(Debug)]
pub struct CrateName<'a> {
    /// The full name of the crate, as extracted from a 'Running' line, for example
    /// "/home/phil/repos/rtest/target/debug/deps/example_lib_tests-9bdf7ee7378a8684"
    pub full_name: &'a str,
    /// The UUID part of the `full_name`.
    pub uuid: &'a str,
    /// The name with the UUID removed, for example
    /// "/home/phil/repos/rtest/target/debug/deps/example_lib_tests".
    pub name: &'a str,
    /// The base part of the `name`, for example "example_lib_tests"
    /// from "/home/phil/repos/rtest/target/debug/deps/example_lib_tests".
    pub basename: &'a str,
}

/// The four texts of a crate name.
pub struct CrateNameText {
    pub full_name: Seq<u8>,
    pub uuid: Seq<u8>,
    pub name: Seq<u8>,
    pub basename: Seq<u8>,
}

impl<'a> View for CrateName<'a> {
    type V = CrateNameText;

    open spec fn view(&self) -> CrateNameText {
        CrateNameText {
            full_name: self.full_name.spec_bytes(),
            uuid: self.uuid.spec_bytes(),
            name: self.name.spec_bytes(),
            basename: self.basename.spec_bytes(),
        }
    }
}

impl<'a> Clone for CrateName<'a> {
    fn clone(&self) -> (r: Self)
        ensures
            r == *self,
    {
        CrateName {
            full_name: self.full_name,
            uuid: self.uuid,
            name: self.name,
            basename: self.basename,
        }
    }
}

/// The text that parts a name from its UUID.
pub open spec fn dash() -> Seq<u8> {
    "-".spec_bytes()
}

/// The text that parts the directories of a name.
pub open spec fn slash() -> Seq<u8> {
    "/".spec_bytes()
}

/// What follows the last `/` of `name`, or all of it where it holds none.
pub open spec fn basename_of(name: Seq<u8>) -> Seq<u8> {
    match rfind(name, slash()) {
        Some(j) => name.subrange(j + 1, name.len() as int),
        None => name,
    }
}

/// The name with nothing but a basename in it: a crate as a 'Doc-tests'
/// line names it.
pub open spec fn bare_name(text: Seq<u8>) -> CrateNameText {
    CrateNameText { full_name: text, uuid: Seq::empty(), name: text, basename: text }
}

/// The crate name that the text `raw` denotes, or why it denotes none.
///
/// The text is trimmed. What is left must not be empty. Where it holds no
/// `-`, all of it is the name. Otherwise the last `-` parts the name from
/// the UUID, which has to be 16 hexadecimal digits.
pub open spec fn crate_name_of(raw: Seq<u8>) -> Result<CrateNameText, ParseErrorKind> {
    let full_name = trimmed(raw);
    if full_name.len() == 0 {
        Err(ParseErrorKind::MalformedCrateName)
    } else {
        match rfind(full_name, dash()) {
            Some(idx) => {
                let name = full_name.subrange(0, idx);
                let uuid = full_name.subrange(idx + 1, full_name.len() as int);
                if valid_uuid(uuid) {
                    Ok(CrateNameText { full_name, uuid, name, basename: basename_of(name) })
                } else {
                    Err(ParseErrorKind::MalformedUuid)
                }
            },
            None => Ok(bare_name(full_name)),
        }
    }
}

/// A name without any `-` is accepted, and has no UUID. What follows the
/// last `-` of a name has to be a UUID: where it is not 16 bytes long, or
/// holds a byte that is no hexadecimal digit, the name is refused as
/// `MalformedUuid`.
pub proof fn lemma_uuid_discipline(raw: Seq<u8>)
    requires
        trimmed(raw).len() > 0,
    ensures
        rfind(trimmed(raw), dash()) is None ==> crate_name_of(raw) == Ok::<
            CrateNameText,
            ParseErrorKind,
        >(bare_name(trimmed(raw))),
        forall|i: int|
            rfind(trimmed(raw), dash()) == Some(i) && !valid_uuid(
                trimmed(raw).subrange(i + 1, trimmed(raw).len() as int),
            ) ==> crate_name_of(raw) == Err::<CrateNameText, ParseErrorKind>(
                ParseErrorKind::MalformedUuid,
            ),
        forall|i: int|
            rfind(trimmed(raw), dash()) == Some(i) && valid_uuid(
                trimmed(raw).subrange(i + 1, trimmed(raw).len() as int),
            ) ==> crate_name_of(raw) is Ok,
{
}

impl<'a> CrateName<'a> {
    /// Construct a new `CrateName`, parsing out the component bits.
    /// Returns an error if the name is empty, or holds a `-` that no UUID follows.
    pub fn parse<'ctx>(full_name: &'a str, ctx: &'ctx ParseContext) -> (r: Result<
        CrateName<'a>,
        ParseError,
    >)
        ensures
            match r {
                Ok(c) => crate_name_of(full_name.spec_bytes()) == Ok::<
                    CrateNameText,
                    ParseErrorKind,
                >(c@),
                Err(e) => crate_name_of(full_name.spec_bytes()) == Err::<
                    CrateNameText,
                    ParseErrorKind,
                >(e.kind) && e@ == failure_at(e.kind, ctx, Seq::empty()),
            },
    {
        let full_name = trim(full_name);
        if full_name.as_bytes().len() == 0 {
            return Err(ParseError::malformed_crate_name(ctx));
        }
        proof {
            reveal_strlit("-");
            reveal_strlit("/");
            lemma_ascii_text("-");
            lemma_ascii_text("/");
            lemma_str_bytes_valid(full_name);
            lemma_empty_text();
        }
        match find_last(full_name, "-") {
            Some(idx) => {
                proof {
                    let b = full_name.spec_bytes();
                    lemma_rfind_from(b, dash(), b.len() - dash().len());
                    assert(b.subrange(idx as int, idx + 1)[0] == dash()[0]);
                    lemma_boundary_after_scalar(b, idx as int);
                }
                let (name, uuid) = exclusive_split_at_index(full_name, idx);
                let uuid = match is_valid_uuid(uuid, ctx) {
                    Ok(uuid) => uuid,
                    Err(e) => {
                        return Err(e);
                    },
                };
                let basename = match find_last(name, "/") {
                    Some(j) => {
                        proof {
                            let b = name.spec_bytes();
                            lemma_str_bytes_valid(name);
                            lemma_rfind_from(b, slash(), b.len() - slash().len());
                            assert(b.subrange(j as int, j + 1)[0] == slash()[0]);
                            lemma_boundary_after_scalar(b, j as int);
                        }
                        slice(name, j + 1, name.as_bytes().len())
                    },
                    None => name,
                };
                Ok(Self { full_name, uuid, name, basename })
            },
            None => Ok(Self { full_name, uuid: "", name: full_name, basename: full_name }),
        }
    }
}

} // verus!
