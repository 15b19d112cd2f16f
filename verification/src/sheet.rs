//! Sprite sheets: the mapping from frame names to source rectangles, and
//! the names of the frames of an animated sequence.

use vstd::prelude::*;
use vstd::hash_map::StringHashMap;
use crate::error::{FrameNotFound, ParseError};
use crate::geometry::Rect;

verus! {

/// One frame of a sheet descriptor: a name and its source rectangle.
#[derive(Debug, PartialEq, Eq)]
pub struct FrameEntry {
    pub name: String,
    pub frame: Rect,
}

/// A parsed sheet descriptor: its frames, in the order of the document.
#[derive(Debug, PartialEq, Eq)]
pub struct SheetDescriptor {
    pub frames: Vec<FrameEntry>,
}

/// No two of `entries` carry the same name.
pub open spec fn spec_names_distinct(entries: Seq<FrameEntry>) -> bool {
    forall|i: int, j: int| 0 <= i < j < entries.len() ==> entries[i].name@ != entries[j].name@
}

/// One of `entries` carries `name`.
pub open spec fn spec_has_name(entries: Seq<FrameEntry>, name: Seq<char>) -> bool {
    exists|i: int| 0 <= i < entries.len() && entries[i].name@ == name
}

/// Entry `j` is the first that repeats the name of an earlier entry.
pub open spec fn spec_first_duplicate(entries: Seq<FrameEntry>, j: int) -> bool {
    &&& 0 <= j < entries.len()
    &&& spec_names_distinct(entries.take(j))
    &&& spec_has_name(entries.take(j), entries[j].name@)
}

/// The mapping that `entries` describe.
pub open spec fn spec_frames(entries: Seq<FrameEntry>) -> Map<Seq<char>, Rect>
    decreases entries.len(),
{
    if entries.len() == 0 {
        Map::empty()
    } else {
        spec_frames(entries.drop_last()).insert(entries.last().name@, entries.last().frame)
    }
}

/// What looking `name` up in `frames` gives.
pub open spec fn spec_lookup(frames: Map<Seq<char>, Rect>, name: Seq<char>) -> Option<Rect> {
    if frames.contains_key(name) {
        Some(frames[name])
    } else {
        None
    }
}

/// The names in the mapping are the names of the entries.
pub proof fn lemma_frames_domain(entries: Seq<FrameEntry>, name: Seq<char>)
    ensures
        spec_frames(entries).contains_key(name) <==> spec_has_name(entries, name),
    decreases entries.len(),
{
    if entries.len() > 0 {
        let front = entries.drop_last();
        lemma_frames_domain(front, name);
        if spec_has_name(front, name) {
            let i = choose|i: int| 0 <= i < front.len() && front[i].name@ == name;
            assert(entries[i].name@ == name);
        }
        if entries.last().name@ == name {
            assert(entries[entries.len() - 1].name@ == name);
        }
        if spec_has_name(entries, name) && entries.last().name@ != name {
            let i = choose|i: int| 0 <= i < entries.len() && entries[i].name@ == name;
            assert(front[i].name@ == name);
        }
    }
}

/// Lookup round trip: in the mapping of a descriptor with distinct names,
/// every name of the descriptor leads to the rectangle that stands beside
/// it, and a name that the descriptor does not hold leads nowhere.
pub proof fn lemma_lookup_round_trip(entries: Seq<FrameEntry>)
    requires
        spec_names_distinct(entries),
    ensures
        forall|i: int|
            0 <= i < entries.len() ==> spec_lookup(spec_frames(entries), #[trigger] entries[i].name@)
                == Some(entries[i].frame),
        forall|name: Seq<char>|
            !spec_has_name(entries, name) ==> (#[trigger] spec_lookup(spec_frames(entries), name))
                is None,
    decreases entries.len(),
{
    assert forall|name: Seq<char>| !spec_has_name(entries, name) implies (#[trigger] spec_lookup(
        spec_frames(entries),
        name,
    )) is None by {
        lemma_frames_domain(entries, name);
    }
    if entries.len() > 0 {
        let front = entries.drop_last();
        assert forall|i: int, j: int| 0 <= i < j < front.len() implies front[i].name@
            != front[j].name@ by {
            assert(front[i] == entries[i] && front[j] == entries[j]);
        }
        lemma_lookup_round_trip(front);
        assert forall|i: int| 0 <= i < entries.len() implies spec_lookup(
            spec_frames(entries),
            #[trigger] entries[i].name@,
        ) == Some(entries[i].frame) by {
            if i < entries.len() - 1 {
                assert(front[i] == entries[i]);
                assert(entries[i].name@ != entries[entries.len() - 1].name@);
            }
        }
    }
}

/// An immutable mapping from frame name to source rectangle.
pub struct SpriteSheet {
    frames: StringHashMap<Rect>,
}

impl View for SpriteSheet {
    type V = Map<Seq<char>, Rect>;

    closed spec fn view(&self) -> Map<Seq<char>, Rect> {
        self.frames@
    }
}

impl SpriteSheet {
    /// Builds the sheet that `descriptor` describes. A descriptor in which a
    /// frame name occurs twice is malformed: the error names the first frame
    /// that repeats an earlier one.
    pub fn from_descriptor(descriptor: &SheetDescriptor) -> (result: Result<SpriteSheet, ParseError>)
        ensures
            match result {
                Ok(sheet) => spec_names_distinct(descriptor.frames@) && sheet@ == spec_frames(
                    descriptor.frames@,
                ),
                Err(e) => exists|j: int|
                    #![trigger descriptor.frames@[j]]
                    spec_first_duplicate(descriptor.frames@, j) && e == (ParseError::DuplicateFrame {
                        name: descriptor.frames@[j].name,
                    }),
            },
    {
        let mut frames: StringHashMap<Rect> = StringHashMap::new();
        let mut i: usize = 0;
        while i < descriptor.frames.len()
            invariant
                i <= descriptor.frames.len(),
                spec_names_distinct(descriptor.frames@.take(i as int)),
                frames@ == spec_frames(descriptor.frames@.take(i as int)),
            decreases descriptor.frames.len() - i,
        {
            let ghost entries = descriptor.frames@;
            let ghost seen = entries.take(i as int);
            let entry = &descriptor.frames[i];
            proof {
                lemma_frames_domain(seen, entry.name@);
            }
            if frames.contains_key(entry.name.as_str()) {
                let name = entry.name.clone();
                assert(spec_first_duplicate(entries, i as int));
                assert(entries[i as int].name == name);
                return Err(ParseError::DuplicateFrame { name });
            }
            frames.insert(entry.name.clone(), entry.frame);
            proof {
                let grown = entries.take(i + 1);
                assert(grown.drop_last() == seen);
                assert(grown.last() == entries[i as int]);
                assert forall|a: int, b: int| 0 <= a < b < grown.len() implies grown[a].name@
                    != grown[b].name@ by {
                    if b == i {
                        assert(seen[a].name@ == grown[a].name@);
                    } else {
                        assert(seen[a] == grown[a] && seen[b] == grown[b]);
                    }
                }
            }
            i = i + 1;
        }
        assert(descriptor.frames@.take(i as int) == descriptor.frames@);
        Ok(SpriteSheet { frames })
    }

    /// The source rectangle of the frame called `frame_name`.
    pub fn lookup(&self, frame_name: &str) -> (result: Result<Rect, FrameNotFound>)
        ensures
            match result {
                Ok(rect) => spec_lookup(self@, frame_name@) == Some(rect),
                Err(e) => spec_lookup(self@, frame_name@) is None && e.name@ == frame_name@,
            },
    {
        match self.frames.get(frame_name) {
            Some(rect) => Ok(*rect),
            None => Err(FrameNotFound { name: frame_name.to_owned() }),
        }
    }

    /// How many frames the sheet holds.
    pub fn len(&self) -> (n: usize)
        ensures
            n == self@.len(),
    {
        self.frames.len()
    }
}

/// The character of the decimal digit `d`.
pub open spec fn spec_digit(d: nat) -> char {
    if d == 0 {
        '0'
    } else if d == 1 {
        '1'
    } else if d == 2 {
        '2'
    } else if d == 3 {
        '3'
    } else if d == 4 {
        '4'
    } else if d == 5 {
        '5'
    } else if d == 6 {
        '6'
    } else if d == 7 {
        '7'
    } else if d == 8 {
        '8'
    } else {
        '9'
    }
}

/// The decimal numeral of `n`, without leading zeros.
pub open spec fn spec_decimal(n: nat) -> Seq<char>
    decreases n,
{
    if n < 10 {
        seq![spec_digit(n)]
    } else {
        spec_decimal(n / 10).push(spec_digit(n % 10))
    }
}

/// The name of frame `index` of the sequence called `base`. Frames are
/// counted from 0, their names from 1.
pub open spec fn spec_frame_name(base: Seq<char>, index: nat) -> Seq<char> {
    base + seq![' ', '('] + spec_decimal(index + 1) + seq![')', '.', 'p', 'n', 'g']
}

/// The text of one decimal digit.
fn digit_text(d: u64) -> (text: &'static str)
    requires
        d < 10,
    ensures
        text@ == seq![spec_digit(d as nat)],
{
    proof {
        reveal_strlit("0");
        reveal_strlit("1");
        reveal_strlit("2");
        reveal_strlit("3");
        reveal_strlit("4");
        reveal_strlit("5");
        reveal_strlit("6");
        reveal_strlit("7");
        reveal_strlit("8");
        reveal_strlit("9");
    }
    let text = if d == 0 {
        "0"
    } else if d == 1 {
        "1"
    } else if d == 2 {
        "2"
    } else if d == 3 {
        "3"
    } else if d == 4 {
        "4"
    } else if d == 5 {
        "5"
    } else if d == 6 {
        "6"
    } else if d == 7 {
        "7"
    } else if d == 8 {
        "8"
    } else {
        "9"
    };
    assert(text@ =~= seq![spec_digit(d as nat)]);
    text
}

/// Appends the decimal numeral of `n` to `text`.
fn append_decimal(text: &mut String, n: u64)
    ensures
        final(text)@ == old(text)@ + spec_decimal(n as nat),
    decreases n,
{
    if n >= 10 {
        append_decimal(text, n / 10);
    }
    text.append(digit_text(n % 10));
}

/// The name of frame `index` of the sequence called `base`: the base, a
/// space, and in parentheses the number of the frame counted from 1, with
/// the extension `.png`.
pub fn frame_name(base: &str, index: u32) -> (name: String)
    ensures
        name@ == spec_frame_name(base@, index as nat),
{
    proof {
        reveal_strlit(" (");
        reveal_strlit(").png");
    }
    let mut name = String::from_str(base);
    name.append(" (");
    let number: u64 = index as u64 + 1;
    append_decimal(&mut name, number);
    name.append(").png");
    assert(" ("@ =~= seq![' ', '(']);
    assert(").png"@ =~= seq![')', '.', 'p', 'n', 'g']);
    name
}

} // verus!
