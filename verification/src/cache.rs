//! A font that keeps the glyphs it rendered last.

use vstd::prelude::*;
use uluru::LRUCache;
use crate::font::{Font, FontFace, FontGlyph, Glyph};
use crate::path::Scale;

verus! {

/// The number of glyphs that a cached font keeps.
pub const CACHE_CAPACITY: usize = 256;

/// `uluru::LRUCache`, a cache of `N` entries at most that are ordered by
/// their last use; what it holds is named by [`cache_entries`].
#[verifier::external_type_specification]
#[verifier::external_body]
#[verifier::reject_recursive_types(T)]
pub struct ExLRUCache<T, const N: usize>(LRUCache<T, N>);

/// `LRUCache::clone` copies a cache; nothing is stated of the copy.
pub assume_specification<T, const N: usize>[ <LRUCache<T, N> as Clone>::clone ](
    cache: &LRUCache<T, N>,
) -> LRUCache<T, N> where T: Clone
;

/// A glyph as the cache keeps it: the character, and a copy of what the font
/// rendered for it.
#[derive(Debug, Clone)]
pub struct CachedGlyph {
    path: Option<String>,
    character: char,
    hor_advance: u32,
}

impl View for CachedGlyph {
    type V = (char, Glyph);

    closed spec fn view(&self) -> (char, Glyph) {
        (
            self.character,
            Glyph {
                path: match self.path {
                    Some(p) => Some(p@),
                    None => None,
                },
                hor_advance: self.hor_advance as nat,
            },
        )
    }
}

impl CachedGlyph {
    /// Whether this is the glyph of the character `c`.
    fn is_for(&self, c: char) -> (is: bool)
        ensures
            is == (self@.0 == c),
    {
        self.character == c
    }

    /// A copy of `glyph`, kept for the character `c`.
    fn copy_of(c: char, glyph: &FontGlyph<'_>) -> (entry: Self)
        ensures
            entry@ == (c, glyph@),
    {
        let path = match glyph.path {
            Some(p) => Some(p.to_owned()),
            None => None,
        };
        CachedGlyph { path, character: c, hor_advance: glyph.hor_advance }
    }

    /// The glyph, borrowed from the entry.
    fn glyph(&self) -> (glyph: FontGlyph<'_>)
        ensures
            glyph@ == self@.1,
    {
        let path = match &self.path {
            Some(p) => Some(p.as_str()),
            None => None,
        };
        FontGlyph { path, hor_advance: self.hor_advance }
    }
}

/// The glyphs that a cache holds, each with its character, from the one used
/// last to the one used longest ago.
pub uninterp spec fn cache_entries(cache: LRUCache<CachedGlyph, 256>) -> Seq<(char, Glyph)>;

/// Whether `entries` holds a glyph for `c`.
pub open spec fn holds(entries: Seq<(char, Glyph)>, c: char) -> bool {
    exists|i: int| 0 <= i < entries.len() && (#[trigger] entries[i]).0 == c
}

/// The place of the first glyph for `c` in `entries`.
pub open spec fn place_of(entries: Seq<(char, Glyph)>, c: char) -> int
    decreases entries.len(),
{
    if entries.len() == 0 || entries[0].0 == c {
        0
    } else {
        1 + place_of(entries.drop_first(), c)
    }
}

/// `entries` after the first glyph for `c` was used: it has moved to the
/// front, and the others have kept their order.
pub open spec fn touched(entries: Seq<(char, Glyph)>, c: char) -> Seq<(char, Glyph)> {
    if holds(entries, c) {
        seq![entries[place_of(entries, c)]] + entries.remove(place_of(entries, c))
    } else {
        entries
    }
}

/// `entries` after `entry` was put in: it stands at the front, and where the
/// cache was full the glyph used longest ago has left.
pub open spec fn inserted(entries: Seq<(char, Glyph)>, entry: (char, Glyph)) -> Seq<(char, Glyph)> {
    if entries.len() == CACHE_CAPACITY {
        seq![entry] + entries.drop_last()
    } else {
        seq![entry] + entries
    }
}

/// An empty cache.
///
/// Calls `LRUCache::default`, which creates a cache without entries.
#[verifier::external_body]
fn cache_new() -> (cache: LRUCache<CachedGlyph, 256>)
    ensures
        cache_entries(cache) == Seq::<(char, Glyph)>::empty(),
{
    LRUCache::default()
}

/// Marks the glyph for `c` as used last, if the cache holds one.
///
/// Calls `LRUCache::touch`, which walks the entries from the one used last,
/// moves the first that the predicate accepts to the front, and says whether
/// it found one.
#[verifier::external_body]
fn cache_touch(cache: &mut LRUCache<CachedGlyph, 256>, c: char) -> (hit: bool)
    ensures
        hit == holds(cache_entries(*old(cache)), c),
        cache_entries(*final(cache)) == touched(cache_entries(*old(cache)), c),
{
    cache.touch(|entry| entry.is_for(c))
}

/// The glyph used last.
///
/// Calls `LRUCache::front`, which returns the entry at the front, or nothing
/// where the cache is empty.
#[verifier::external_body]
fn cache_front(cache: &LRUCache<CachedGlyph, 256>) -> (front: Option<&CachedGlyph>)
    ensures
        match front {
            Some(entry) => cache_entries(*cache).len() > 0 && entry@ == cache_entries(*cache)[0],
            None => cache_entries(*cache).len() == 0,
        },
{
    cache.front()
}

/// Puts `entry` in as the glyph used last.
///
/// Calls `LRUCache::insert`, which puts the entry at the front and, where the
/// cache is full, removes the entry at the back.
#[verifier::external_body]
fn cache_insert(cache: &mut LRUCache<CachedGlyph, 256>, entry: CachedGlyph)
    requires
        cache_entries(*old(cache)).len() <= CACHE_CAPACITY,
    ensures
        cache_entries(*final(cache)) == inserted(cache_entries(*old(cache)), entry@),
{
    cache.insert(entry);
}

/// Whether `entries` can be the glyphs that a cache keeps of the font `face`:
/// no more than the capacity, no character twice, and each glyph what the
/// font renders for its character.
pub open spec fn agrees(entries: Seq<(char, Glyph)>, face: FontFace) -> bool {
    &&& entries.len() <= CACHE_CAPACITY
    &&& forall|i: int, j: int|
        0 <= i < j < entries.len() ==> (#[trigger] entries[i]).0 != (#[trigger] entries[j]).0
    &&& forall|i: int|
        0 <= i < entries.len() ==> face.glyph((#[trigger] entries[i]).0) == Some(entries[i].1)
}

/// A wrapper around a font that caches a finite number of glyph paths.
#[derive(Debug, Clone)]
pub struct CachedFont<T: Font> {
    font: T,
    cache: LRUCache<CachedGlyph, 256>,
}

impl<T: Font> CachedFont<T> {
    /// The font that is wrapped.
    pub closed spec fn inner(&self) -> T {
        self.font
    }

    /// The glyphs that are kept, each with its character, from the one used
    /// last to the one used longest ago.
    pub closed spec fn entries(&self) -> Seq<(char, Glyph)> {
        cache_entries(self.cache)
    }

    /// Construct a new [`CachedFont`].
    pub fn new(font: T) -> (cached: Self)
        requires
            font.inv(),
        ensures
            cached.inv(),
            cached.inner() == font,
            cached.entries().len() == 0,
    {
        Self { font, cache: cache_new() }
    }
}

impl<T: Font> Font for CachedFont<T> {
    open spec fn inv(&self) -> bool {
        self.inner().inv() && agrees(self.entries(), self.inner().face())
    }

    open spec fn face(&self) -> FontFace {
        self.inner().face()
    }

    fn height(&self) -> (height: u32) {
        self.font.height()
    }

    /// Renders the glyph from the cache where it is kept there, and else by
    /// the wrapped font, whose glyph is then kept.
    fn render_glyph(&mut self, c: char) -> (glyph: Option<FontGlyph<'_>>)
        ensures
            holds(old(self).entries(), c) ==> final(self).inner() == old(self).inner(),
            final(self).entries() == if holds(old(self).entries(), c) {
                touched(old(self).entries(), c)
            } else {
                match old(self).face().glyph(c) {
                    Some(g) => inserted(old(self).entries(), (c, g)),
                    None => old(self).entries(),
                }
            },
    {
        let ghost entries = self.entries();
        let ghost face = self.face();
        if cache_touch(&mut self.cache, c) {
            proof {
                lemma_touched_agrees(entries, face, c);
            }
            return match cache_front(&self.cache) {
                Some(entry) => Some(entry.glyph()),
                None => None,
            };
        }
        match self.font.render_glyph(c) {
            Some(glyph) => {
                cache_insert(&mut self.cache, CachedGlyph::copy_of(c, &glyph));
                proof {
                    lemma_inserted_agrees(entries, face, (c, glyph@));
                }
                Some(glyph)
            },
            None => None,
        }
    }

    fn scale(&self) -> (scale: Scale) {
        self.font.scale()
    }

    fn precision(&self) -> (precision: u8) {
        self.font.precision()
    }
}

/// Where `entries` holds a glyph for `c`, its first one stands at
/// `place_of(entries, c)`.
pub proof fn lemma_place_of(entries: Seq<(char, Glyph)>, c: char)
    requires
        holds(entries, c),
    ensures
        0 <= place_of(entries, c) < entries.len(),
        entries[place_of(entries, c)].0 == c,
    decreases entries.len(),
{
    if entries[0].0 != c {
        let i = choose|i: int| 0 <= i < entries.len() && (#[trigger] entries[i]).0 == c;
        assert(entries.drop_first()[i - 1] == entries[i]);
        lemma_place_of(entries.drop_first(), c);
    }
}

/// Using a glyph leaves the cache in agreement with the font, with the glyph
/// at the front.
pub proof fn lemma_touched_agrees(entries: Seq<(char, Glyph)>, face: FontFace, c: char)
    requires
        agrees(entries, face),
        holds(entries, c),
    ensures
        agrees(touched(entries, c), face),
        touched(entries, c).len() == entries.len(),
        touched(entries, c)[0].0 == c,
        face.glyph(c) == Some(touched(entries, c)[0].1),
{
    lemma_place_of(entries, c);
    let p = place_of(entries, c);
    let after = touched(entries, c);
    assert forall|i: int| 0 < i < after.len() implies #[trigger] after[i] == entries[if i <= p {
        i - 1
    } else {
        i
    }] by {}
    assert(after[0] == entries[p]);
}

/// Putting in the glyph of a character that the cache does not hold leaves
/// it in agreement with the font.
pub proof fn lemma_inserted_agrees(entries: Seq<(char, Glyph)>, face: FontFace, entry: (char, Glyph))
    requires
        agrees(entries, face),
        !holds(entries, entry.0),
        face.glyph(entry.0) == Some(entry.1),
    ensures
        agrees(inserted(entries, entry), face),
{
    let after = inserted(entries, entry);
    assert forall|i: int| 0 < i < after.len() implies #[trigger] after[i] == entries[i - 1] by {}
    assert(after[0] == entry);
}

/// A glyph that was rendered is held: the cache answers for its character
/// the next time, without the wrapped font.
pub proof fn lemma_rendered_is_held(entries: Seq<(char, Glyph)>, c: char, glyph: Glyph)
    ensures
        holds(inserted(entries, (c, glyph)), c),
        holds(entries, c) ==> holds(touched(entries, c), c),
{
    assert(inserted(entries, (c, glyph))[0] == (c, glyph));
    if holds(entries, c) {
        lemma_place_of(entries, c);
        assert(touched(entries, c)[0] == entries[place_of(entries, c)]);
    }
}

/// A glyph that is held stays held while another character is rendered,
/// unless the cache is full and it is the glyph used longest ago.
pub proof fn lemma_held_stays(
    entries: Seq<(char, Glyph)>,
    c: char,
    other: char,
    glyph: Glyph,
)
    requires
        holds(entries, c),
        entries.len() < CACHE_CAPACITY || entries.last().0 != c,
    ensures
        holds(touched(entries, other), c),
        !holds(entries, other) ==> holds(inserted(entries, (other, glyph)), c),
{
    let i = choose|i: int| 0 <= i < entries.len() && (#[trigger] entries[i]).0 == c;
    if holds(entries, other) {
        lemma_place_of(entries, other);
        let p = place_of(entries, other);
        let after = touched(entries, other);
        if i == p {
            assert(after[0] == entries[i]);
        } else if i < p {
            assert(after[i + 1] == entries[i]);
        } else {
            assert(after[i] == entries[i]);
        }
    }
    if !holds(entries, other) {
        let after = inserted(entries, (other, glyph));
        if entries.len() == CACHE_CAPACITY && i == entries.len() - 1 {
            assert(entries.last() == entries[i]);
        }
        assert(after[i + 1] == entries[i]);
    }
}

/// Putting a glyph into a full cache removes the glyph used longest ago and
/// no other: its character is no longer held, and the others are.
pub proof fn lemma_full_cache_evicts_oldest(
    entries: Seq<(char, Glyph)>,
    face: FontFace,
    entry: (char, Glyph),
)
    requires
        agrees(entries, face),
        entries.len() == CACHE_CAPACITY,
        !holds(entries, entry.0),
    ensures
        inserted(entries, entry) == seq![entry] + entries.drop_last(),
        !holds(inserted(entries, entry), entries.last().0),
        forall|i: int|
            0 <= i < entries.len() - 1 ==> holds(inserted(entries, entry), (#[trigger] entries[i]).0),
{
    let after = inserted(entries, entry);
    let oldest = entries.last();
    assert(oldest == entries[entries.len() - 1]);
    assert forall|j: int| 0 <= j < after.len() implies (#[trigger] after[j]).0 != oldest.0 by {
        if j > 0 {
            assert(after[j] == entries[j - 1]);
        }
    }
    assert forall|i: int| 0 <= i < entries.len() - 1 implies holds(
        after,
        (#[trigger] entries[i]).0,
    ) by {
        assert(after[i + 1] == entries[i]);
    }
}

} // verus!
