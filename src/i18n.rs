use vstd::prelude::*;

verus! {

/// Arguments for formatting a localized message: key/value pairs in the order in which
/// their keys were first set, each key at most once.
#[derive(Clone, Debug)]
pub struct I18NArgs {
    entries: Vec<(String, String)>,
}

pub open spec fn keys_unique(s: Seq<(Seq<char>, Seq<char>)>) -> bool {
    forall|i: int, j: int| 0 <= i < j < s.len() ==> s[i].0 != s[j].0
}

/// The pairs after setting `key` to `value`: replaced in place where the key is
/// present, appended where it is not.
pub open spec fn set_arg(s: Seq<(Seq<char>, Seq<char>)>, key: Seq<char>, value: Seq<char>) -> Seq<
    (Seq<char>, Seq<char>),
> {
    if exists|i: int| 0 <= i < s.len() && s[i].0 == key {
        let i = choose|i: int| 0 <= i < s.len() && s[i].0 == key;
        s.update(i, (key, value))
    } else {
        s.push((key, value))
    }
}

impl View for I18NArgs {
    type V = Seq<(Seq<char>, Seq<char>)>;

    closed spec fn view(&self) -> Self::V {
        self.entries@.map_values(|p: (String, String)| (p.0@, p.1@))
    }
}

impl I18NArgs {
    pub open spec fn wf(&self) -> bool {
        keys_unique(self@)
    }

    /// No arguments.
    pub fn new() -> (r: I18NArgs)
        ensures
            r.wf(),
            r@ == Seq::<(Seq<char>, Seq<char>)>::empty(),
    {
        let r = I18NArgs { entries: Vec::new() };
        assert(r@ =~= Seq::<(Seq<char>, Seq<char>)>::empty());
        r
    }

    /// Sets `key` to `value`, replacing the value of a key that is already there.
    pub fn set(&mut self, key: String, value: String)
        requires
            old(self).wf(),
        ensures
            final(self).wf(),
            final(self)@ == set_arg(old(self)@, key@, value@),
    {
        let ghost s = self@;
        let mut i: usize = 0;
        while i < self.entries.len()
            invariant
                self@ == s,
                s == old(self)@,
                keys_unique(s),
                i <= s.len(),
                s.len() == self.entries@.len(),
                forall|j: int| 0 <= j < i ==> (#[trigger] s[j]).0 != key@,
            decreases self.entries.len() - i,
        {
            if self.entries[i].0 == key {
                let ghost kv = key@;
                let ghost vv = value@;
                self.entries[i] = (key, value);
                proof {
                    assert(s[i as int].0 == kv);
                    let k = choose|k: int| 0 <= k < s.len() && s[k].0 == kv;
                    assert(k == i);
                    assert(self@ =~= s.update(i as int, (kv, vv)));
                    assert(set_arg(s, kv, vv) == s.update(i as int, (kv, vv)));
                }
                return;
            }
            i = i + 1;
        }
        let ghost kv = key@;
        let ghost vv = value@;
        self.entries.push((key, value));
        assert(self@ =~= s.push((kv, vv)));
    }

    /// These arguments with `key` set to `value`.
    pub fn with(self, key: String, value: String) -> (r: I18NArgs)
        requires
            self.wf(),
        ensures
            r.wf(),
            r@ == set_arg(self@, key@, value@),
    {
        let mut r = self;
        r.set(key, value);
        r
    }

    /// The pairs, in order.
    pub fn entries(&self) -> (r: &Vec<(String, String)>)
        ensures
            r@.map_values(|p: (String, String)| (p.0@, p.1@)) == self@,
    {
        &self.entries
    }
}

} // verus!
