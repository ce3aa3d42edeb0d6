//! Command-line arguments as pairs of a key and a value.

use vstd::prelude::*;

verus! {

/// One argument: a key and the value that follows it.
#[allow(non_camel_case_types)]
pub struct arguments {
    key: String,
    value: String,
}

impl arguments {
    /// The key, as a value.
    pub closed spec fn key_text(&self) -> Seq<char> {
        self.key@
    }

    /// The value, as a value.
    pub closed spec fn value_text(&self) -> Seq<char> {
        self.value@
    }

    /// The key.
    pub fn key(&self) -> (r: &String)
        ensures
            r@ == self.key_text(),
    {
        &self.key
    }

    /// The value.
    pub fn value(&self) -> (r: &String)
        ensures
            r@ == self.value_text(),
    {
        &self.value
    }
}

/// Pairs up the arguments behind the program's name: the first with the
/// second, the third with the fourth, and so on. Behind the name there
/// must be an even number of them.
pub fn parse_args(args: Vec<String>) -> (r: Vec<arguments>)
    requires
        args.len() == 0 || args.len() % 2 == 1,
    ensures
        r.len() == args.len() / 2,
        forall|k: int|
            0 <= k < r.len() ==> (#[trigger] r[k]).key_text() == args[1 + 2 * k]@
                && r[k].value_text() == args[2 + 2 * k]@,
{
    let mut res: Vec<arguments> = Vec::new();
    let mut i: usize = 1;
    while i < args.len()
        invariant
            i % 2 == 1,
            args.len() == 0 || args.len() % 2 == 1,
            i <= args.len() + 1,
            res.len() == i / 2,
            forall|k: int|
                0 <= k < res.len() ==> (#[trigger] res[k]).key_text() == args[1 + 2 * k]@
                    && res[k].value_text() == args[2 + 2 * k]@,
        decreases args.len() + 1 - i,
    {
        let key = args[i].clone();
        let value = args[i + 1].clone();
        res.push(arguments { key, value });
        i += 2;
    }
    res
}

} // verus!
