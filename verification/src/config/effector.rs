//! Substitution of `{key}` placeholders by the values of an environment.

use crate::dict::Dict;
use crate::project::Environment;
use crate::text::{chars_of, replace, replace_all, string_of};
use vstd::prelude::*;

verus! {

/// The placeholder of a key: the key between braces.
pub open spec fn placeholder(key: Seq<char>) -> Seq<char> {
    seq!['{'] + key + seq!['}']
}

/// `text` after the placeholder of each pair, in the order of the pairs, was
/// replaced by the pair's value throughout. Each key is applied once: a
/// placeholder that a later value brings in is replaced only if its key
/// comes later.
pub open spec fn substituted(text: Seq<char>, pairs: Seq<(Seq<char>, Seq<char>)>) -> Seq<char>
    decreases pairs.len(),
{
    if pairs.len() == 0 {
        text
    } else {
        replace_all(
            substituted(text, pairs.drop_last()),
            placeholder(pairs.last().0),
            pairs.last().1,
        )
    }
}

/// `text` under an environment that may be absent: without one the text is
/// left as it is.
pub open spec fn applied(env: Option<Environment>, text: Seq<char>) -> Seq<char> {
    match env {
        Some(e) => substituted(text, e.pairs()),
        None => text,
    }
}

/// Rewrites placeholders by the values of the selected environment.
pub struct Effector;

impl Effector {
    fn substitute(values: &Dict<String>, text: &str) -> (out: String)
        ensures
            out@ == substituted(text@, values.pairs()),
    {
        let mut chars = chars_of(text);
        let n = values.len();
        let mut i: usize = 0;
        assert(values.pairs().take(0) =~= Seq::<(Seq<char>, Seq<char>)>::empty());
        while i < n
            invariant
                i <= n,
                n == values.pairs().len(),
                chars@ == substituted(text@, values.pairs().take(i as int)),
            decreases n - i,
        {
            let key = chars_of(values.key_at(i).as_str());
            let mut pattern: Vec<char> = Vec::new();
            pattern.push('{');
            let mut j: usize = 0;
            while j < key.len()
                invariant
                    j <= key.len(),
                    pattern@ == seq!['{'] + key@.take(j as int),
                decreases key.len() - j,
            {
                pattern.push(key[j]);
                j += 1;
            }
            pattern.push('}');
            let to = chars_of(values.value_at(i).as_str());
            proof {
                assert(key@.take(key@.len() as int) =~= key@);
                assert(pattern@ =~= placeholder(key@));
                assert(values.pairs().take(i + 1).drop_last() =~= values.pairs().take(i as int));
                assert(values.pairs().take(i + 1).last() == values.pairs()[i as int]);
            }
            chars = replace(&chars, &pattern, &to);
            i += 1;
        }
        assert(values.pairs().take(n as int) =~= values.pairs());
        string_of(&chars, 0, chars.len())
    }

    /// Rewrites the placeholders in every token. Without an environment the
    /// tokens are returned as they are.
    pub fn apply_env_to_args(env: &Option<Environment>, args: Vec<String>) -> (out: Vec<String>)
        ensures
            out.len() == args.len(),
            forall|i: int| 0 <= i < args.len() ==> (#[trigger] out[i])@ == applied(*env, args[i]@),
    {
        match env {
            Some(e) => {
                let values = e.values();
                let mut out: Vec<String> = Vec::new();
                let mut i: usize = 0;
                while i < args.len()
                    invariant
                        i <= args.len(),
                        out.len() == i,
                        values.pairs() == e.pairs(),
                        forall|j: int|
                            0 <= j < i ==> (#[trigger] out[j])@ == substituted(args[j]@, e.pairs()),
                    decreases args.len() - i,
                {
                    out.push(Self::substitute(&values, args[i].as_str()));
                    i += 1;
                }
                out
            },
            None => args,
        }
    }

    /// Rewrites the placeholders in a text. Without an environment the text
    /// is returned as it is.
    pub fn apply_env_to_string(env: &Option<Environment>, text: String) -> (out: String)
        ensures
            out@ == applied(*env, text@),
    {
        match env {
            Some(e) => {
                let values = e.values();
                Self::substitute(&values, text.as_str())
            },
            None => text,
        }
    }
}

} // verus!
