//! The values that a parsed command line gives the logic of a tool: for each
//! argument that occurred, its first value, if it takes one, and whether that
//! value is text at all.

use vstd::prelude::*;

use crate::text::str_eq;

verus! {

/// One argument that occurred on the command line.
pub struct ArgEntry {
    pub name: String,
    pub value: Option<String>,
    /// Whether the argument's value, if it has one, is valid UTF-8; a value
    /// that is not is recorded as no value.
    pub text: bool,
}

/// The arguments that occurred on a command line, by name.
///
/// As a map, a name is present exactly when the argument occurred; it maps
/// to the argument's first value, or to `None` for a flag. The arguments
/// whose first value is not valid UTF-8 make up [`ArgValues::not_text`]; they
/// map to `None`, and reading their value is refused.
pub struct ArgValues {
    entries: Vec<ArgEntry>,
}

pub open spec fn opt_text(o: Option<String>) -> Option<Seq<char>> {
    match o {
        Some(s) => Some(s@),
        None => None,
    }
}

/// Later entries win over earlier ones with the same name.
pub open spec fn lookup(entries: Seq<ArgEntry>, key: Seq<char>) -> Option<Option<Seq<char>>>
    decreases entries.len(),
{
    if entries.len() == 0 {
        None
    } else if entries.last().name@ == key {
        Some(opt_text(entries.last().value))
    } else {
        lookup(entries.drop_last(), key)
    }
}

/// Whether the entry that decides `key` records a value that is not text.
pub open spec fn lookup_not_text(entries: Seq<ArgEntry>, key: Seq<char>) -> bool
    decreases entries.len(),
{
    if entries.len() == 0 {
        false
    } else if entries.last().name@ == key {
        !entries.last().text
    } else {
        lookup_not_text(entries.drop_last(), key)
    }
}

/// The value given to `key`, if it occurred with one.
pub open spec fn value_in(args: Map<Seq<char>, Option<Seq<char>>>, key: Seq<char>) -> Option<
    Seq<char>,
> {
    if args.contains_key(key) {
        args[key]
    } else {
        None
    }
}

/// Reading an argument back gives what was last recorded for it, and
/// recording one argument leaves every other as it was.
pub proof fn lemma_read_after_record(
    args: Map<Seq<char>, Option<Seq<char>>>,
    name: Seq<char>,
    value: Option<Seq<char>>,
    other: Seq<char>,
)
    requires
        other != name,
    ensures
        args.insert(name, value).contains_key(name),
        value_in(args.insert(name, value), name) == value,
        args.insert(name, value).contains_key(other) == args.contains_key(other),
        value_in(args.insert(name, value), other) == value_in(args, other),
{
}

/// The value given to `key`, if any, can be read as text.
pub open spec fn text_ok(args: &ArgValues, key: Seq<char>) -> bool {
    !args.not_text().contains(key)
}

impl View for ArgValues {
    type V = Map<Seq<char>, Option<Seq<char>>>;

    closed spec fn view(&self) -> Map<Seq<char>, Option<Seq<char>>> {
        Map::new(
            |k: Seq<char>| lookup(self.entries@, k) is Some,
            |k: Seq<char>| lookup(self.entries@, k)->0,
        )
    }
}

impl ArgValues {
    /// The arguments that occurred with a first value that is not valid UTF-8.
    pub closed spec fn not_text(&self) -> Set<Seq<char>> {
        Set::new(|k: Seq<char>| lookup_not_text(self.entries@, k))
    }

    /// A command line on which no argument occurred.
    pub fn new() -> (r: ArgValues)
        ensures
            r@ == Map::<Seq<char>, Option<Seq<char>>>::empty(),
            r.not_text() == Set::<Seq<char>>::empty(),
    {
        let r = ArgValues { entries: Vec::new() };
        assert(r@ =~= Map::<Seq<char>, Option<Seq<char>>>::empty());
        assert(r.not_text() =~= Set::<Seq<char>>::empty());
        r
    }

    fn push_entry(&mut self, name: String, value: Option<String>, text: bool)
        requires
            text || value is None,
        ensures
            final(self)@ == old(self)@.insert(name@, opt_text(value)),
            final(self).not_text() == (if text {
                old(self).not_text().remove(name@)
            } else {
                old(self).not_text().insert(name@)
            }),
    {
        let ghost before = self.entries@;
        let ghost key = name@;
        let ghost val = opt_text(value);
        self.entries.push(ArgEntry { name, value, text });
        assert(self.entries@.drop_last() =~= before);
        assert(self@ =~= old(self)@.insert(key, val)) by {
            assert forall|k: Seq<char>| #[trigger] lookup(self.entries@, k) == (if k == key {
                Some(val)
            } else {
                lookup(before, k)
            }) by {}
        }
        assert forall|k: Seq<char>| #[trigger] lookup_not_text(self.entries@, k) == (if k == key {
            !text
        } else {
            lookup_not_text(before, k)
        }) by {}
        if text {
            assert(self.not_text() =~= old(self).not_text().remove(key));
        } else {
            assert(self.not_text() =~= old(self).not_text().insert(key));
        }
    }

    /// Records that `name` occurred, with `value`; it replaces what was
    /// recorded for `name` before.
    pub fn insert(&mut self, name: String, value: Option<String>)
        ensures
            final(self)@ == old(self)@.insert(name@, opt_text(value)),
            final(self).not_text() == old(self).not_text().remove(name@),
    {
        self.push_entry(name, value, true);
    }

    /// Records that `name` occurred with a first value that is not valid
    /// UTF-8; it replaces what was recorded for `name` before.
    pub fn insert_not_text(&mut self, name: String)
        ensures
            final(self)@ == old(self)@.insert(name@, None),
            final(self).not_text() == old(self).not_text().insert(name@),
    {
        self.push_entry(name, None, false);
    }

    /// The entry that decides what `key` maps to, if any.
    fn find(&self, key: &str) -> (r: Option<usize>)
        ensures
            match r {
                Some(j) => j < self.entries@.len() && lookup(self.entries@, key@) == Some(
                    opt_text(self.entries@[j as int].value),
                ) && lookup_not_text(self.entries@, key@) == !self.entries@[j as int].text,
                None => lookup(self.entries@, key@) is None && !lookup_not_text(self.entries@, key@),
            },
    {
        let mut found: Option<usize> = None;
        let mut i: usize = 0;
        let n = self.entries.len();
        assert(self.entries@.take(0) =~= Seq::<ArgEntry>::empty());
        while i < n
            invariant
                n == self.entries@.len(),
                i <= n,
                match found {
                    Some(j) => j < i && lookup(self.entries@.take(i as int), key@) == Some(
                        opt_text(self.entries@[j as int].value),
                    ) && lookup_not_text(self.entries@.take(i as int), key@) == !self.entries@[j as int].text,
                    None => lookup(self.entries@.take(i as int), key@) is None && !lookup_not_text(
                        self.entries@.take(i as int),
                        key@,
                    ),
                },
            decreases n - i,
        {
            assert(self.entries@.take(i + 1).drop_last() =~= self.entries@.take(i as int));
            if str_eq(self.entries[i].name.as_str(), key) {
                found = Some(i);
            }
            i = i + 1;
        }
        assert(self.entries@.take(n as int) =~= self.entries@);
        found
    }

    /// Whether `key` occurred.
    pub fn is_present(&self, key: &str) -> (r: bool)
        ensures
            r == self@.contains_key(key@),
    {
        self.find(key).is_some()
    }

    /// Whether the value given to `key`, if any, can be read as text.
    pub fn is_text(&self, key: &str) -> (r: bool)
        ensures
            r == !self.not_text().contains(key@),
    {
        match self.find(key) {
            Some(j) => self.entries[j].text,
            None => true,
        }
    }

    /// The value given to `key`, if it occurred with one. A value that is
    /// not text cannot be read.
    pub fn value_of(&self, key: &str) -> (r: Option<String>)
        requires
            !self.not_text().contains(key@),
        ensures
            opt_text(r) == value_in(self@, key@),
    {
        match self.find(key) {
            Some(j) => match &self.entries[j].value {
                Some(v) => Some(v.clone()),
                None => None,
            },
            None => None,
        }
    }
}

} // verus!
