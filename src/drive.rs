//! Where a bare directory name leads. Without drive letters it leads to the
//! name itself. With them, a name ending in `:` switches drive: to the
//! directory last visited on that drive, or else to the drive's root; the
//! directory being left is remembered for its own drive first.
use vstd::prelude::*;
use vstd::string::StringExecFns;
use crate::text::same_text;

verus! {

/// What std's `str::to_uppercase` makes of a text.
pub uninterp spec fn upper_of(s: Seq<char>) -> Seq<char>;

/// Relies on `str::to_uppercase`: the upper-case form of each character, in
/// order; the result depends on the characters alone.
#[verifier::external_body]
fn uppercase(s: &str) -> (r: String)
    ensures
        r@ == upper_of(s@),
{
    s.to_uppercase()
}

/// The part of `s` before its first `:`, or all of `s` when it has none.
pub open spec fn before_colon(s: Seq<char>) -> Seq<char>
    decreases s.len(),
{
    if s.len() == 0 {
        s
    } else if s[0] == ':' {
        Seq::empty()
    } else {
        seq![s[0]] + before_colon(s.drop_first())
    }
}

/// Whether `s` holds a `:`.
pub open spec fn has_colon(s: Seq<char>) -> bool {
    exists|i: int| 0 <= i < s.len() && s[i] == ':'
}

/// Whether `s` ends in `:`.
pub open spec fn ends_with_colon(s: Seq<char>) -> bool {
    s.len() > 0 && s.last() == ':'
}

/// The memory once `current` is remembered for its drive (when it has one).
pub open spec fn remember(
    m: Map<Seq<char>, Seq<char>>,
    current: Seq<char>,
) -> Map<Seq<char>, Seq<char>> {
    if has_colon(current) {
        m.insert(before_colon(current), current)
    } else {
        m
    }
}

/// Where the drive named by `upper` (already upper-cased) leads under memory `m`.
pub open spec fn drive_destination(upper: Seq<char>, m: Map<Seq<char>, Seq<char>>) -> Seq<char> {
    let d = before_colon(upper);
    if m.contains_key(d) {
        m[d]
    } else {
        upper + seq!['\\']
    }
}

proof fn lemma_before_colon(s: Seq<char>, i: int)
    requires
        0 <= i <= s.len(),
        forall|j: int| 0 <= j < i ==> s[j] != ':',
        i == s.len() || s[i] == ':',
    ensures
        before_colon(s) == s.subrange(0, i),
    decreases s.len(),
{
    if s.len() > 0 && i > 0 {
        let t = s.drop_first();
        assert forall|j: int| 0 <= j < i - 1 implies t[j] != ':' by {
            assert(t[j] == s[j + 1]);
        }
        lemma_before_colon(t, i - 1);
        assert(s.subrange(0, i) =~= seq![s[0]] + t.subrange(0, i - 1));
    } else {
        assert(s.subrange(0, i) =~= Seq::<char>::empty());
    }
}

/// The part of `s` before its first `:`, and whether there was one.
fn split_at_colon(s: &str) -> (r: (&str, bool))
    ensures
        r.0@ == before_colon(s@),
        r.1 == has_colon(s@),
{
    let n = s.unicode_len();
    let mut i: usize = 0;
    while i < n
        invariant
            n == s@.len(),
            i <= n,
            forall|j: int| 0 <= j < i ==> s@[j] != ':',
        decreases n - i,
    {
        if s.get_char(i) == ':' {
            proof {
                lemma_before_colon(s@, i as int);
            }
            return (s.substring_char(0, i), true);
        }
        i = i + 1;
    }
    proof {
        lemma_before_colon(s@, i as int);
    }
    (s.substring_char(0, n), false)
}

/// The directory last visited on each drive.
pub struct DriveMemory {
    drives: Vec<String>,
    paths: Vec<String>,
    contents: Ghost<Map<Seq<char>, Seq<char>>>,
}

impl View for DriveMemory {
    type V = Map<Seq<char>, Seq<char>>;

    closed spec fn view(&self) -> Map<Seq<char>, Seq<char>> {
        self.contents@
    }
}

impl DriveMemory {
    /// The two lists agree with the map, one entry per drive.
    pub closed spec fn wf(&self) -> bool {
        &&& self.drives@.len() == self.paths@.len()
        &&& forall|i: int|
            0 <= i < self.drives@.len() ==> #[trigger] self.contents@.contains_key(self.drives@[i]@)
                && self.contents@[self.drives@[i]@] == self.paths@[i]@
        &&& forall|k: Seq<char>|
            #[trigger] self.contents@.contains_key(k) ==> exists|i: int|
                0 <= i < self.drives@.len() && self.drives@[i]@ == k
        &&& forall|i: int, j: int|
            0 <= i < j < self.drives@.len() ==> self.drives@[i]@ != self.drives@[j]@
    }

    /// A memory of no drive.
    pub fn new() -> (r: DriveMemory)
        ensures
            r.wf(),
            r@ == Map::<Seq<char>, Seq<char>>::empty(),
    {
        DriveMemory { drives: Vec::new(), paths: Vec::new(), contents: Ghost(Map::empty()) }
    }

    fn position(&self, drive: &str) -> (r: Option<usize>)
        requires
            self.wf(),
        ensures
            match r {
                Some(i) => i < self.drives@.len() && self.drives@[i as int]@ == drive@,
                None => !self@.contains_key(drive@),
            },
    {
        let mut i: usize = 0;
        while i < self.drives.len()
            invariant
                self.wf(),
                i <= self.drives@.len(),
                forall|j: int| 0 <= j < i ==> self.drives@[j]@ != drive@,
            decreases self.drives@.len() - i,
        {
            if same_text(self.drives[i].as_str(), drive) {
                return Some(i);
            }
            i = i + 1;
        }
        None
    }

    /// The directory remembered for `drive`.
    pub fn get(&self, drive: &str) -> (r: Option<String>)
        requires
            self.wf(),
        ensures
            match r {
                Some(p) => self@.contains_key(drive@) && self@[drive@] == p@,
                None => !self@.contains_key(drive@),
            },
    {
        match self.position(drive) {
            Some(i) => {
                proof {
                    assert(self.contents@.contains_key(self.drives@[i as int]@));
                }
                Some(self.paths[i].clone())
            },
            None => None,
        }
    }

    /// Every remembered drive with its directory, each once.
    pub fn entries(&self) -> (r: Vec<(String, String)>)
        requires
            self.wf(),
        ensures
            forall|i: int|
                0 <= i < r@.len() ==> self@.contains_key((#[trigger] r@[i]).0@) && self@[r@[i].0@]
                    == r@[i].1@,
            forall|k: Seq<char>|
                #[trigger] self@.contains_key(k) ==> exists|i: int|
                    0 <= i < r@.len() && r@[i].0@ == k,
    {
        let mut r: Vec<(String, String)> = Vec::new();
        let mut i: usize = 0;
        while i < self.drives.len()
            invariant
                self.wf(),
                i <= self.drives@.len(),
                r@.len() == i,
                forall|j: int|
                    0 <= j < i ==> (#[trigger] r@[j]).0@ == self.drives@[j]@ && r@[j].1@
                        == self.paths@[j]@,
            decreases self.drives@.len() - i,
        {
            r.push((self.drives[i].clone(), self.paths[i].clone()));
            i = i + 1;
        }
        assert forall|j: int| 0 <= j < r@.len() implies self@.contains_key((#[trigger] r@[j]).0@)
            && self@[r@[j].0@] == r@[j].1@ by {
            assert(self.contents@.contains_key(self.drives@[j]@));
        }
        assert forall|k: Seq<char>| #[trigger] self@.contains_key(k) implies exists|j: int|
            0 <= j < r@.len() && r@[j].0@ == k by {
            let j = choose|j: int| 0 <= j < self.drives@.len() && self.drives@[j]@ == k;
            assert(r@[j].0@ == k);
        }
        r
    }

    /// Remembers `path` for `drive`, in place of what was there.
    pub fn insert(&mut self, drive: &str, path: &str)
        requires
            old(self).wf(),
        ensures
            final(self).wf(),
            final(self)@ == old(self)@.insert(drive@, path@),
    {
        let ghost m = self.contents@.insert(drive@, path@);
        let ghost mut at: int = 0;
        match self.position(drive) {
            Some(i) => {
                self.paths.set(i, path.to_owned());
                proof {
                    at = i as int;
                }
            },
            None => {
                self.drives.push(drive.to_owned());
                self.paths.push(path.to_owned());
                proof {
                    at = self.drives@.len() - 1;
                }
            },
        }
        self.contents = Ghost(m);
        assert forall|k: Seq<char>| #[trigger] self.contents@.contains_key(k) implies exists|i: int|
            0 <= i < self.drives@.len() && self.drives@[i]@ == k by {
            if k != drive@ {
                assert(old(self)@.contains_key(k));
                let j = choose|j: int| 0 <= j < old(self).drives@.len() && old(self).drives@[j]@ == k;
                assert(self.drives@[j]@ == k);
            } else {
                assert(self.drives@[at]@ == k);
            }
        }
    }
}

/// Switches to the drive named by `upper`, an upper-cased name ending in `:`:
/// `current` is first remembered for its own drive, then the destination is
/// what the memory holds for the new drive, or that drive's root.
pub fn drive_target(upper: &str, current: &str, memory: &mut DriveMemory) -> (r: String)
    requires
        old(memory).wf(),
    ensures
        final(memory).wf(),
        final(memory)@ == remember(old(memory)@, current@),
        r@ == drive_destination(upper@, final(memory)@),
{
    let (current_drive, current_has_drive) = split_at_colon(current);
    if current_has_drive {
        memory.insert(current_drive, current);
    }
    let (drive, _) = split_at_colon(upper);
    match memory.get(drive) {
        Some(p) => p,
        None => {
            let mut root = upper.to_owned();
            root.append("\\");
            proof {
                reveal_strlit("\\");
            }
            assert(root@ =~= upper@ + seq!['\\']);
            root
        },
    }
}

/// The directory a bare name leads to. Only where drive letters are in use
/// (`drive_aware`) and the name ends in `:` is it a drive switch, made on the
/// upper-cased name; any other name leads to itself and the memory is left
/// alone.
pub fn resolve_shortcut_target(
    name: &str,
    current: &str,
    memory: &mut DriveMemory,
    drive_aware: bool,
) -> (r: String)
    requires
        old(memory).wf(),
    ensures
        final(memory).wf(),
        drive_aware && ends_with_colon(name@) ==> final(memory)@ == remember(old(memory)@, current@)
            && r@ == drive_destination(upper_of(name@), final(memory)@),
        !(drive_aware && ends_with_colon(name@)) ==> final(memory)@ == old(memory)@ && r@
            == name@,
{
    let n = name.unicode_len();
    if drive_aware && n > 0 && name.get_char(n - 1) == ':' {
        let upper = uppercase(name);
        drive_target(upper.as_str(), current, memory)
    } else {
        name.to_owned()
    }
}

} // verus!
