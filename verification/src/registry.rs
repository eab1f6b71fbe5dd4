//! The token type registry: the numeric code and the display name of each
//! token kind under a version profile.

use crate::kinds::{TokenKind, VersionProfile, KIND_COUNT};
use std::collections::HashMap;
use vstd::prelude::*;

verus! {

/// Whether `profile` knows `kind`.
pub open spec fn in_profile(kind: TokenKind, profile: VersionProfile) -> bool {
    match profile {
        VersionProfile::V37 => kind.ordinal() < 53 || kind == TokenKind::Op || kind.ordinal()
            >= 60,
        VersionProfile::V38 => kind != TokenKind::SoftKeyword,
        VersionProfile::V310 => true,
    }
}

/// The number of kinds that `profile` knows. Its codes are the numbers
/// below this count.
pub open spec fn profile_size(profile: VersionProfile) -> nat {
    match profile {
        VersionProfile::V37 => 58,
        VersionProfile::V38 => 63,
        VersionProfile::V310 => 64,
    }
}

/// The numeric code of `kind` under `profile`: its place among the kinds
/// that the profile knows.
pub open spec fn code_of(kind: TokenKind, profile: VersionProfile) -> nat {
    let o = kind.ordinal();
    match profile {
        VersionProfile::V37 => if o < 53 {
            o
        } else if o == 54 {
            53
        } else {
            (o - 6) as nat
        },
        VersionProfile::V38 => if o < 59 {
            o
        } else {
            (o - 1) as nat
        },
        VersionProfile::V310 => o,
    }
}

/// The kind that has the code `code` under `profile`, if there is one.
pub open spec fn kind_of_code(code: nat, profile: VersionProfile) -> Option<TokenKind> {
    if code >= profile_size(profile) {
        None
    } else {
        Some(
            TokenKind::at(
                match profile {
                    VersionProfile::V37 => if code < 53 {
                        code
                    } else if code == 53 {
                        54
                    } else {
                        code + 6
                    },
                    VersionProfile::V38 => if code < 59 {
                        code
                    } else {
                        code + 1
                    },
                    VersionProfile::V310 => code,
                },
            ),
        )
    }
}

/// `TokenKind::at` and `TokenKind::ordinal` are inverse to each other.
pub proof fn lemma_ordinal_at(kind: TokenKind)
    ensures
        kind.ordinal() < KIND_COUNT,
        TokenKind::at(kind.ordinal()) == kind,
{
}

/// Under one profile, codes and kinds correspond one to one: the kind of
/// a kind's code is that kind, a code below the profile's size belongs to
/// a kind that the profile knows, and codes of other kinds are not used.
pub proof fn lemma_codes_are_a_bijection(profile: VersionProfile)
    ensures
        forall|kind: TokenKind| #[trigger]
            in_profile(kind, profile) ==> kind_of_code(code_of(kind, profile), profile) == Some(
                kind,
            ),
        forall|code: nat|
            (#[trigger] kind_of_code(code, profile)) is Some ==> in_profile(
                kind_of_code(code, profile)->0,
                profile,
            ) && code_of(kind_of_code(code, profile)->0, profile) == code,
{
    assert forall|code: nat| (#[trigger] kind_of_code(code, profile)) is Some implies in_profile(
        kind_of_code(code, profile)->0,
        profile,
    ) && code_of(kind_of_code(code, profile)->0, profile) == code by {
        let kind = kind_of_code(code, profile)->0;
        assert(code < profile_size(profile));
        assert(in_profile(kind, profile) && code_of(kind, profile) == code);
    }
}

/// Two kinds that a profile knows have different codes under it.
pub proof fn lemma_codes_are_distinct(a: TokenKind, b: TokenKind, profile: VersionProfile)
    requires
        in_profile(a, profile),
        in_profile(b, profile),
        a != b,
    ensures
        code_of(a, profile) != code_of(b, profile),
{
    lemma_ordinal_at(a);
    lemma_ordinal_at(b);
}

/// The answer to a query for a kind that the registry's profile lacks.
#[derive(Clone, Copy, Debug, PartialEq, Eq, Structural)]
pub struct UnknownKindError {
    /// The kind that was asked for.
    pub kind: TokenKind,
}

/// Computes `in_profile`.
pub fn profile_has(kind: TokenKind, profile: VersionProfile) -> (r: bool)
    ensures
        r == in_profile(kind, profile),
{
    let o: usize = kind.index();
    match profile {
        VersionProfile::V37 => o < 53 || o == 54 || o >= 60,
        VersionProfile::V38 => o != 59,
        VersionProfile::V310 => true,
    }
}

/// Computes `code_of` for a kind that the profile knows.
pub fn kind_code(kind: TokenKind, profile: VersionProfile) -> (r: usize)
    requires
        in_profile(kind, profile),
    ensures
        r == code_of(kind, profile),
        r < profile_size(profile),
{
    let o: usize = kind.index();
    match profile {
        VersionProfile::V37 => if o < 53 {
            o
        } else if o == 54 {
            53
        } else {
            o - 6
        },
        VersionProfile::V38 => if o < 59 {
            o
        } else {
            o - 1
        },
        VersionProfile::V310 => o,
    }
}

/// The table of one profile: for each code its display name.
pub struct TokenTypeRegistry {
    profile: VersionProfile,
    names: HashMap<usize, String>,
}

impl TokenTypeRegistry {
    /// The table holds exactly the codes of the profile, each with the
    /// display name of its kind.
    #[verifier::type_invariant]
    pub closed spec fn wf(&self) -> bool {
        table_of(self.names@, self.profile)
    }

    /// The profile that the registry was made for.
    pub closed spec fn spec_profile(&self) -> VersionProfile {
        self.profile
    }

    /// The registry of `profile`.
    pub fn for_profile(profile: VersionProfile) -> (r: TokenTypeRegistry)
        ensures
            r.spec_profile() == profile,
    {
        let mut names: HashMap<usize, String> = HashMap::new();
        let mut i: usize = 0;
        while i < KIND_COUNT
            invariant
                i <= KIND_COUNT,
                forall|code: usize| #[trigger]
                    names@.contains_key(code) <==> (kind_of_code(code as nat, profile) matches Some(
                        kind,
                    ) && kind.ordinal() < i),
                forall|code: usize| #[trigger]
                    names@.contains_key(code) ==> names@[code]@ == kind_of_code(
                        code as nat,
                        profile,
                    )->0.display_name(),
            decreases KIND_COUNT - i,
        {
            let kind = TokenKind::from_index(i);
            if profile_has(kind, profile) {
                let code = kind_code(kind, profile);
                proof {
                    lemma_codes_are_a_bijection(profile);
                }
                names.insert(code, kind.name());
            }
            proof {
                lemma_codes_are_a_bijection(profile);
            }
            i += 1;
        }
        proof {
            assert forall|code: usize| #[trigger]
                names@.contains_key(code) <==> kind_of_code(
                    code as nat,
                    profile,
                ) is Some by {
                if kind_of_code(code as nat, profile) is Some {
                    lemma_ordinal_at(kind_of_code(code as nat, profile)->0);
                }
            }
        }
        TokenTypeRegistry { profile, names }
    }

    /// The profile that the registry was made for.
    pub fn profile(&self) -> (r: VersionProfile)
        ensures
            r == self.spec_profile(),
    {
        self.profile
    }

    /// The code and the display name of `kind`, or the error that the
    /// profile lacks it.
    pub fn resolve(&self, kind: TokenKind) -> (r: Result<(usize, String), UnknownKindError>)
        ensures
            match r {
                Ok((code, name)) => in_profile(kind, self.spec_profile()) && code == code_of(
                    kind,
                    self.spec_profile(),
                ) && name@ == kind.display_name(),
                Err(e) => !in_profile(kind, self.spec_profile()) && e.kind == kind,
            },
    {
        if profile_has(kind, self.profile) {
            Ok((kind_code(kind, self.profile), kind.name()))
        } else {
            Err(UnknownKindError { kind })
        }
    }

    /// The display name of the kind that has the code `code`, if the
    /// profile uses that code.
    pub fn display_name_for_code(&self, code: usize) -> (r: Option<String>)
        ensures
            match kind_of_code(code as nat, self.spec_profile()) {
                Some(kind) => r matches Some(name) && name@ == kind.display_name(),
                None => r is None,
            },
    {
        proof {
            use_type_invariant(self);
        }
        match self.names.get(&code) {
            Some(name) => Some(name.clone()),
            None => None,
        }
    }

    /// A copy of the table, from code to display name.
    pub fn token_types(&self) -> (r: HashMap<usize, String>)
        ensures
            table_of(r@, self.spec_profile()),
    {
        proof {
            use_type_invariant(self);
        }
        let mut r: HashMap<usize, String> = HashMap::new();
        let mut code: usize = 0;
        let size: usize = match self.profile {
            VersionProfile::V37 => 58,
            VersionProfile::V38 => 63,
            VersionProfile::V310 => 64,
        };
        while code < size
            invariant
                code <= size == profile_size(self.profile),
                table_of(self.names@, self.profile),
                forall|c: usize| #[trigger] r@.contains_key(c) <==> c < code,
                forall|c: usize| #[trigger]
                    r@.contains_key(c) ==> r@[c]@ == kind_of_code(
                        c as nat,
                        self.profile,
                    )->0.display_name(),
            decreases size - code,
        {
            match self.names.get(&code) {
                Some(name) => {
                    r.insert(code, name.clone());
                },
                None => {
                    assert(false);
                },
            }
            code += 1;
        }
        r
    }
}

/// Whether `names` holds exactly the codes of `profile`, each with the
/// display name of its kind.
pub open spec fn table_of(names: Map<usize, String>, profile: VersionProfile) -> bool {
    &&& forall|code: usize| #[trigger]
        names.contains_key(code) <==> kind_of_code(code as nat, profile) is Some
    &&& forall|code: usize| #[trigger]
        names.contains_key(code) ==> names[code]@ == kind_of_code(
            code as nat,
            profile,
        )->0.display_name()
}

} // verus!
