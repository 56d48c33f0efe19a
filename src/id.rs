use vstd::prelude::*;

use crate::strings::push_char;

verus! {

/// Why a string is not an identifier.
#[derive(Copy, Clone, Debug, PartialEq, Eq, Structural)]
pub enum IdError {
    EmptyName,
    InvalidStartChar(char),
    InvalidChar(char),
}

/// An ASCII letter or underscore: what an identifier may begin with.
pub open spec fn is_id_start(c: char) -> bool {
    ('a' <= c && c <= 'z') || ('A' <= c && c <= 'Z') || c == '_'
}

/// An ASCII letter, digit or underscore.
pub open spec fn is_id_char(c: char) -> bool {
    is_id_start(c) || ('0' <= c && c <= '9')
}

/// The identifier grammar `[A-Za-z_][A-Za-z0-9_]*`.
pub open spec fn is_identifier(s: Seq<char>) -> bool {
    &&& s.len() > 0
    &&& is_id_start(s[0])
    &&& forall|i: int| 0 <= i < s.len() ==> is_id_char(#[trigger] s[i])
}

/// The first character of `s` that is not an identifier character.
pub open spec fn first_invalid_char(s: Seq<char>) -> Option<char>
    decreases s.len(),
{
    if s.len() == 0 {
        None
    } else if !is_id_char(s[0]) {
        Some(s[0])
    } else {
        first_invalid_char(s.drop_first())
    }
}

/// The error with which building an identifier from `s` fails, if any.
pub open spec fn id_error(s: Seq<char>) -> Option<IdError> {
    if s.len() == 0 {
        Some(IdError::EmptyName)
    } else if !is_id_start(s[0]) {
        Some(IdError::InvalidStartChar(s[0]))
    } else {
        match first_invalid_char(s) {
            Some(c) => Some(IdError::InvalidChar(c)),
            None => None,
        }
    }
}

/// The message that describes an identifier error.
pub open spec fn id_error_message(e: IdError) -> Seq<char> {
    match e {
        IdError::EmptyName => "Id cannot be empty"@,
        IdError::InvalidStartChar(c) => "Id cannot begin with '"@ + seq![c] + "'"@,
        IdError::InvalidChar(c) => "Id cannot contain '"@ + seq![c] + "'"@,
    }
}

/// `first_invalid_char` finds nothing exactly when every character is an
/// identifier character.
pub proof fn lemma_first_invalid_none(s: Seq<char>)
    ensures
        first_invalid_char(s) is None <==> forall|i: int| 0 <= i < s.len() ==> is_id_char(#[trigger] s[i]),
    decreases s.len(),
{
    if s.len() > 0 {
        lemma_first_invalid_none(s.drop_first());
        if first_invalid_char(s) is None {
            assert forall|i: int| 0 <= i < s.len() implies is_id_char(#[trigger] s[i]) by {
                if i > 0 {
                    assert(s[i] == s.drop_first()[i - 1]);
                }
            }
        }
        if forall|i: int| 0 <= i < s.len() ==> is_id_char(#[trigger] s[i]) {
            assert forall|i: int| 0 <= i < s.drop_first().len() implies is_id_char(
                #[trigger] s.drop_first()[i],
            ) by {
                assert(s.drop_first()[i] == s[i + 1]);
            }
        }
    }
}

/// Building an identifier fails exactly on the strings outside the
/// identifier grammar.
pub proof fn lemma_id_error_iff(s: Seq<char>)
    ensures
        id_error(s) is None <==> is_identifier(s),
{
    lemma_first_invalid_none(s);
}

/// `IdError` as text.
impl IdError {
    pub fn to_string(&self) -> (r: String)
        ensures
            r@ == id_error_message(*self),
    {
        let mut out = String::new();
        match *self {
            IdError::EmptyName => {
                out.append("Id cannot be empty");
            },
            IdError::InvalidStartChar(c) => {
                out.append("Id cannot begin with '");
                push_char(&mut out, c);
                out.append("'");
            },
            IdError::InvalidChar(c) => {
                out.append("Id cannot contain '");
                push_char(&mut out, c);
                out.append("'");
            },
        }
        proof {
            assert(out@ =~= id_error_message(*self));
        }
        out
    }
}

/// A DOT identifier: a non-empty word of ASCII letters, digits and
/// underscores that does not begin with a digit.
#[derive(Hash, PartialEq, Eq, Debug)]
pub struct Id {
    name: String,
}

impl View for Id {
    type V = Seq<char>;

    closed spec fn view(&self) -> Seq<char> {
        self.name@
    }
}

impl Clone for Id {
    fn clone(&self) -> (r: Id)
        ensures
            r@ == self@,
    {
        proof {
            use_type_invariant(self);
        }
        Id { name: self.name.clone() }
    }
}

impl Id {
    #[verifier::type_invariant]
    spec fn well_formed(self) -> bool {
        is_identifier(self.name@)
    }

    /// Creates an `Id` named `name`, or says why `name` is not an
    /// identifier: empty, a first character that is not an ASCII letter
    /// or underscore, or a later one that is not an ASCII letter, digit
    /// or underscore. The name is kept as given.
    pub fn new(name: &str) -> (r: Result<Id, IdError>)
        ensures
            r is Ok <==> is_identifier(name@),
            r is Ok ==> r->Ok_0@ == name@,
            r is Err ==> id_error(name@) == Some(r->Err_0),
            name@.len() == 0 ==> r == Err::<Id, IdError>(IdError::EmptyName),
            name@.len() > 0 && !is_id_start(name@[0]) ==> r == Err::<Id, IdError>(
                IdError::InvalidStartChar(name@[0]),
            ),
    {
        proof {
            lemma_id_error_iff(name@);
        }
        let n = name.unicode_len();
        if n == 0 {
            return Err(IdError::EmptyName);
        }
        let first = name.get_char(0);
        if !(('a' <= first && first <= 'z') || ('A' <= first && first <= 'Z') || first == '_') {
            return Err(IdError::InvalidStartChar(first));
        }
        let mut i: usize = 0;
        proof {
            assert(name@.subrange(0, n as int) =~= name@);
        }
        while i < n
            invariant
                n == name@.len(),
                i <= n,
                n > 0,
                is_id_start(name@[0]),
                forall|j: int| 0 <= j < i ==> is_id_char(#[trigger] name@[j]),
                first_invalid_char(name@) == first_invalid_char(
                    name@.subrange(i as int, n as int),
                ),
            decreases n - i,
        {
            let c = name.get_char(i);
            if !(('a' <= c && c <= 'z') || ('A' <= c && c <= 'Z') || ('0' <= c && c <= '9') || c
                == '_') {
                proof {
                    assert(name@.subrange(i as int, n as int)[0] == c);
                }
                return Err(IdError::InvalidChar(c));
            }
            proof {
                assert(name@.subrange(i as int, n as int).drop_first() =~= name@.subrange(
                    i + 1,
                    n as int,
                ));
            }
            i = i + 1;
        }
        proof {
            assert(name@.subrange(n as int, n as int) =~= Seq::<char>::empty());
        }
        let id = Id { name: String::from_str(name) };
        Ok(id)
    }

    /// The identifier's text.
    pub fn as_str(&self) -> (r: &str)
        ensures
            r@ == self@,
            is_identifier(self@),
    {
        proof {
            use_type_invariant(self);
        }
        self.name.as_str()
    }
}

} // verus!
