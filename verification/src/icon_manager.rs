//! Icon catalog: named families of animation frames, one frame sequence per
//! theme, with the lookup and fallback policy the animation engine relies on.
//!
//! The catalog is loaded once at startup from a gzip-compressed asset blob
//! plus a metadata table of byte offsets, and is immutable afterwards.
//! A frame is kept as its raw bytes; turning frames into native icon handles
//! is the platform layer's job.

use vstd::prelude::*;

verus! {

use crate::strutil::{lex_lt, str_eq, str_lt};
use crate::strutil::{lemma_lex_lt_total, lemma_lex_lt_trans, lemma_lex_lt_irrefl};

/// Rendering variant of an icon family.
#[derive(Debug, Clone, Copy, PartialEq, Eq, Hash, Structural)]
pub enum Theme {
    Dark,
    Light,
}

/// The theme chosen when only the system-wide dark-mode flag is known.
pub open spec fn spec_theme_from_system(system_dark: bool) -> Theme {
    if system_dark {
        Theme::Dark
    } else {
        Theme::Light
    }
}

/// Canonical name of a theme, as the settings store and the asset metadata
/// spell it.
pub open spec fn spec_theme_key(t: Theme) -> Seq<char> {
    match t {
        Theme::Dark => "dark"@,
        Theme::Light => "light"@,
    }
}

/// How a stored theme name reads back; names that match no theme are
/// rejected, so that the caller can fall back.
pub open spec fn spec_parse_theme(s: Seq<char>) -> Option<Theme> {
    if s == "dark"@ {
        Some(Theme::Dark)
    } else if s == "light"@ {
        Some(Theme::Light)
    } else {
        None
    }
}

impl Theme {
    /// Resolve the theme from the system-wide dark-mode flag, which the
    /// platform layer reads and passes in.
    pub fn from_system(system_dark: bool) -> (r: Theme)
        ensures
            r == spec_theme_from_system(system_dark),
    {
        if system_dark {
            Theme::Dark
        } else {
            Theme::Light
        }
    }

    /// The canonical theme name.
    pub fn as_str(&self) -> (r: &'static str)
        ensures
            r@ == spec_theme_key(*self),
    {
        match self {
            Theme::Dark => "dark",
            Theme::Light => "light",
        }
    }
}

/// Parse a stored theme name.
pub fn parse_theme(s: &str) -> (r: Option<Theme>)
    ensures
        r == spec_parse_theme(s@),
{
    if str_eq(s, "dark") {
        Some(Theme::Dark)
    } else if str_eq(s, "light") {
        Some(Theme::Light)
    } else {
        None
    }
}

/// Writing a theme's canonical name and parsing it back yields the theme.
pub proof fn lemma_theme_key_round_trip(t: Theme)
    ensures
        spec_parse_theme(spec_theme_key(t)) == Some(t),
{
    reveal_strlit("dark");
    reveal_strlit("light");
    assert("dark"@.len() == 4);
    assert("light"@.len() == 5);
}

/// Where one theme's frame group sits inside the decompressed asset blob:
/// the frames lie back to back from `offset` on, with the given sizes.
pub struct IconGroupInfo {
    pub offset: usize,
    pub sizes: Vec<u32>,
}

/// One theme's group in the asset metadata, under its stored theme name.
pub struct ThemeGroupMeta {
    pub theme_key: String,
    pub info: IconGroupInfo,
}

/// One icon family in the asset metadata.
pub struct IconMeta {
    pub name: String,
    pub groups: Vec<ThemeGroupMeta>,
}

/// A loaded icon family: its frame sequences, one per theme it was built
/// with, and whether the family takes part in theming at all.
#[derive(Debug, Clone, PartialEq, Eq)]
pub struct IconSet {
    pub name: String,
    pub supports_themes: bool,
    pub dark_frames: Option<Vec<Vec<u8>>>,
    pub light_frames: Option<Vec<Vec<u8>>>,
}

/// The frames an icon set holds for a theme.
pub open spec fn spec_frames(s: IconSet, t: Theme) -> Option<Seq<Seq<u8>>> {
    match t {
        Theme::Dark => match s.dark_frames {
            Some(v) => Some(v.deep_view()),
            None => None,
        },
        Theme::Light => match s.light_frames {
            Some(v) => Some(v.deep_view()),
            None => None,
        },
    }
}

/// The frames of the first theme an icon set holds any frames for,
/// dark before light.
pub open spec fn spec_first_frames(s: IconSet) -> Option<Seq<Seq<u8>>> {
    if s.dark_frames is Some {
        spec_frames(s, Theme::Dark)
    } else if s.light_frames is Some {
        spec_frames(s, Theme::Light)
    } else {
        None
    }
}

/// What gzip decompression yields on a byte sequence: the decompressed
/// bytes, or nothing where the input is not a valid gzip stream.
pub uninterp spec fn gunzip_of(data: Seq<u8>) -> Option<Seq<u8>>;

/// Relies on flate2's `GzDecoder` driven by `Read::read_to_end` over an
/// in-memory slice: decompression is a pure function of the input bytes,
/// named `gunzip_of` here.
#[verifier::external_body]
fn gunzip(data: &[u8]) -> (r: Option<Vec<u8>>)
    ensures
        match r {
            Some(v) => gunzip_of(data@) == Some(v@),
            None => gunzip_of(data@) is None,
        },
{
    let mut decoder = flate2::read::GzDecoder::new(data);
    let mut out = Vec::new();
    match std::io::Read::read_to_end(&mut decoder, &mut out) {
        Ok(_) => Some(out),
        Err(_) => None,
    }
}

/// Whether a frame group's slices all lie inside a blob of the given length.
pub open spec fn group_in_bounds(blob_len: int, offset: int, sizes: Seq<u32>) -> bool
    decreases sizes.len(),
{
    if sizes.len() == 0 {
        true
    } else {
        offset + sizes[0] <= blob_len && group_in_bounds(
            blob_len,
            offset + sizes[0],
            sizes.drop_first(),
        )
    }
}

/// The frames a group describes: back-to-back slices of the blob.
pub open spec fn group_frames(blob: Seq<u8>, offset: int, sizes: Seq<u32>) -> Seq<Seq<u8>>
    decreases sizes.len(),
{
    if sizes.len() == 0 {
        Seq::empty()
    } else {
        seq![blob.subrange(offset, offset + sizes[0])] + group_frames(
            blob,
            offset + sizes[0],
            sizes.drop_first(),
        )
    }
}

/// Cut one theme group's frames out of the decompressed blob, or report
/// that the group's metadata points outside it.
fn extract_group(blob: &Vec<u8>, info: &IconGroupInfo) -> (r: Option<Vec<Vec<u8>>>)
    ensures
        match r {
            Some(v) => group_in_bounds(blob@.len() as int, info.offset as int, info.sizes@)
                && v.deep_view() == group_frames(blob@, info.offset as int, info.sizes@),
            None => !group_in_bounds(blob@.len() as int, info.offset as int, info.sizes@),
        },
{
    let mut frames: Vec<Vec<u8>> = Vec::new();
    let mut off: usize = info.offset;
    let n = info.sizes.len();
    proof {
        assert(info.sizes@.skip(0) =~= info.sizes@);
    }
    for k in 0..n
        invariant
            n == info.sizes@.len(),
            frames@.len() == k,
            group_in_bounds(blob@.len() as int, info.offset as int, info.sizes@)
                == group_in_bounds(blob@.len() as int, off as int, info.sizes@.skip(k as int)),
            group_frames(blob@, info.offset as int, info.sizes@) =~= frames.deep_view()
                + group_frames(blob@, off as int, info.sizes@.skip(k as int)),
    {
        let size = info.sizes[k] as usize;
        proof {
            assert(info.sizes@.skip(k as int)[0] == info.sizes@[k as int]);
        }
        if off > blob.len() || size > blob.len() - off {
            return None;
        }
        let frame = vstd::slice::slice_to_vec(
            vstd::slice::slice_subrange(blob.as_slice(), off, off + size),
        );
        let ghost frames_before = frames.deep_view();
        let ghost frame_bytes = frame@;
        frames.push(frame);
        proof {
            let dv = frames.deep_view();
            let target = frames_before.push(blob@.subrange(off as int, off + size));
            assert(frame_bytes == blob@.subrange(off as int, off + size));
            assert forall|i: int| 0 <= i < dv.len() implies dv[i] == target[i] by {
                if i == dv.len() - 1 {
                    assert(frames@[i].deep_view() =~= frame_bytes);
                } else {
                    assert(dv[i] == frames@[i].deep_view());
                }
            }
            assert(frames.deep_view() =~= frames_before.push(
                blob@.subrange(off as int, off + size),
            ));
            assert(info.sizes@.skip(k as int).drop_first() =~= info.sizes@.skip(k + 1));
            assert(frames.deep_view() + group_frames(
                blob@,
                off + size,
                info.sizes@.skip(k + 1),
            ) =~= frames_before + group_frames(blob@, off as int, info.sizes@.skip(k as int)));
        }
        off = off + size;
    }
    proof {
        assert(info.sizes@.skip(n as int).len() == 0);
        assert(frames.deep_view() + Seq::<Seq<u8>>::empty() =~= frames.deep_view());
        assert(frames.deep_view() =~= group_frames(blob@, info.offset as int, info.sizes@));
    }
    Some(frames)
}

/// Why the catalog could not be loaded: the asset blob was not valid gzip
/// data, or a group's metadata pointed outside the decompressed blob.
#[derive(Debug, Clone, PartialEq, Eq)]
pub enum IconLoadError {
    DecompressFailed,
    InvalidGroup { icon_name: String, theme_key: String },
}

/// The frames a metadata entry assigns to a theme: its first group stored
/// under that theme's name, if any.
pub open spec fn entry_frames(blob: Seq<u8>, groups: Seq<ThemeGroupMeta>, t: Theme) -> Option<
    Seq<Seq<u8>>,
>
    decreases groups.len(),
{
    if groups.len() == 0 {
        None
    } else if spec_parse_theme(groups[0].theme_key@) == Some(t) {
        Some(group_frames(blob, groups[0].info.offset as int, groups[0].info.sizes@))
    } else {
        entry_frames(blob, groups.drop_first(), t)
    }
}

/// Whether every group of an entry that names a theme stays inside the blob;
/// groups under unknown theme names are skipped unchecked.
pub open spec fn entry_in_bounds(blob_len: int, groups: Seq<ThemeGroupMeta>) -> bool {
    forall|j: int|
        0 <= j < groups.len() && spec_parse_theme(#[trigger] groups[j].theme_key@) is Some
            ==> group_in_bounds(blob_len, groups[j].info.offset as int, groups[j].info.sizes@)
}

/// Whether the whole metadata table stays inside the blob.
pub open spec fn meta_in_bounds(blob_len: int, metadata: Seq<IconMeta>) -> bool {
    forall|i: int|
        0 <= i < metadata.len() ==> entry_in_bounds(blob_len, #[trigger] metadata[i].groups@)
}

/// No two metadata entries name the same icon family, and within an entry
/// no theme is named twice: the table describes a mapping.
pub open spec fn meta_well_formed(metadata: Seq<IconMeta>) -> bool {
    &&& forall|i: int, j: int|
        0 <= i < j < metadata.len() ==> #[trigger] metadata[i].name@ != #[trigger] metadata[j].name@
    &&& forall|i: int, j1: int, j2: int|
        0 <= i < metadata.len() && 0 <= j1 < j2 < metadata[i].groups@.len()
            && (#[trigger] spec_parse_theme(metadata[i].groups@[j1].theme_key@)) is Some
            && (#[trigger] spec_parse_theme(metadata[i].groups@[j2].theme_key@)) is Some
            ==> spec_parse_theme(metadata[i].groups@[j1].theme_key@) != spec_parse_theme(
            metadata[i].groups@[j2].theme_key@,
        )
}

/// Appending a group changes an entry's frames only for the theme the new
/// group names, and only where no earlier group named it.
proof fn lemma_entry_frames_push(blob: Seq<u8>, s: Seq<ThemeGroupMeta>, g: ThemeGroupMeta, t: Theme)
    ensures
        entry_frames(blob, s.push(g), t) == (if entry_frames(blob, s, t) is Some {
            entry_frames(blob, s, t)
        } else if spec_parse_theme(g.theme_key@) == Some(t) {
            Some(group_frames(blob, g.info.offset as int, g.info.sizes@))
        } else {
            None::<Seq<Seq<u8>>>
        }),
    decreases s.len(),
{
    if s.len() == 0 {
        assert(s.push(g)[0] == g);
        assert(s.push(g).drop_first() =~= Seq::<ThemeGroupMeta>::empty());
        assert(entry_frames(blob, Seq::<ThemeGroupMeta>::empty(), t) is None);
        assert(entry_frames(blob, s, t) is None);
    } else {
        assert(s.push(g)[0] == s[0]);
        assert(s.push(g).drop_first() =~= s.drop_first().push(g));
        lemma_entry_frames_push(blob, s.drop_first(), g, t);
    }
}

/// An entry has frames for a theme exactly where some group names it.
proof fn lemma_entry_frames_some(blob: Seq<u8>, s: Seq<ThemeGroupMeta>, t: Theme)
    ensures
        entry_frames(blob, s, t) is Some <==> exists|j: int|
            0 <= j < s.len() && spec_parse_theme(#[trigger] s[j].theme_key@) == Some(t),
    decreases s.len(),
{
    if s.len() == 0 {
    } else if spec_parse_theme(s[0].theme_key@) == Some(t) {
    } else {
        lemma_entry_frames_some(blob, s.drop_first(), t);
        if entry_frames(blob, s, t) is Some {
            let j = choose|j: int|
                0 <= j < s.drop_first().len() && spec_parse_theme(
                    #[trigger] s.drop_first()[j].theme_key@,
                ) == Some(t);
            assert(s[j + 1] == s.drop_first()[j]);
        } else {
            if exists|j: int|
                0 <= j < s.len() && spec_parse_theme(#[trigger] s[j].theme_key@) == Some(t) {
                let j = choose|j: int|
                    0 <= j < s.len() && spec_parse_theme(#[trigger] s[j].theme_key@) == Some(t);
                assert(s.drop_first()[j - 1] == s[j]);
                assert(false);
            }
        }
    }
}

/// Names strictly ascending, hence unique.
pub open spec fn sorted_names(s: Seq<IconSet>) -> bool {
    forall|i: int, j: int|
        0 <= i < j < s.len() ==> lex_lt(#[trigger] s[i].name@, #[trigger] s[j].name@)
}

/// Whether some set in the sequence carries this family name.
pub open spec fn contains_name(s: Seq<IconSet>, q: Seq<char>) -> bool {
    exists|i: int| 0 <= i < s.len() && #[trigger] s[i].name@ == q
}

/// The set registered under a family name, if any.
pub open spec fn set_for_in(s: Seq<IconSet>, q: Seq<char>) -> Option<IconSet> {
    if contains_name(s, q) {
        Some(s[choose|i: int| 0 <= i < s.len() && #[trigger] s[i].name@ == q])
    } else {
        None
    }
}

/// In a sorted sequence, a name pins its slot.
proof fn lemma_sorted_unique(s: Seq<IconSet>)
    requires
        sorted_names(s),
    ensures
        forall|i: int, j: int|
            0 <= i < s.len() && 0 <= j < s.len() && #[trigger] s[i].name@ == #[trigger] s[j].name@
                ==> i == j,
{
    assert forall|i: int, j: int|
        0 <= i < s.len() && 0 <= j < s.len() && #[trigger] s[i].name@ == #[trigger] s[j].name@
        implies i == j by {
        if i != j {
            lemma_lex_lt_irrefl(s[i].name@);
        }
    }
}

/// In a sorted sequence, the lookup of a present name gives its slot.
proof fn lemma_set_for_at(s: Seq<IconSet>, i: int)
    requires
        sorted_names(s),
        0 <= i < s.len(),
    ensures
        set_for_in(s, s[i].name@) == Some(s[i]),
{
    lemma_sorted_unique(s);
    assert(contains_name(s, s[i].name@));
}

/// Inserting at the sorted slot of a fresh name keeps the order and changes
/// no other lookup.
#[verifier::rlimit(30)]
proof fn lemma_insert_sorted(pre: Seq<IconSet>, p: int, set: IconSet)
    requires
        sorted_names(pre),
        0 <= p <= pre.len(),
        forall|k: int| 0 <= k < p ==> lex_lt(#[trigger] pre[k].name@, set.name@),
        p < pre.len() ==> lex_lt(set.name@, pre[p].name@),
    ensures
        sorted_names(pre.insert(p, set)),
        !contains_name(pre, set.name@),
        set_for_in(pre.insert(p, set), set.name@) == Some(set),
        forall|q: Seq<char>|
            q != set.name@ ==> #[trigger] set_for_in(pre.insert(p, set), q) == set_for_in(pre, q),
{
    let post = pre.insert(p, set);
    pre.insert_ensures(p, set);
    assert forall|k: int| p <= k < pre.len() implies lex_lt(set.name@, #[trigger] pre[k].name@) by {
        if k > p {
            lemma_lex_lt_trans(set.name@, pre[p].name@, pre[k].name@);
        }
    }
    assert forall|i: int| p < i < post.len() implies post[i] == pre[i - 1] by {
        assert(post[(i - 1) + 1] == pre[i - 1]);
    }
    assert forall|i: int, j: int| 0 <= i < j < post.len() implies lex_lt(
        post[i].name@,
        post[j].name@,
    ) by {
        if i < p && j < p {
        } else if i < p && j == p {
        } else if i == p {
            assert(post[j] == pre[j - 1]);
        } else if j > p && i > p {
            assert(post[i] == pre[i - 1]);
            assert(post[j] == pre[j - 1]);
        } else {
            assert(post[j] == pre[j - 1]);
        }
    }
    assert forall|i: int| 0 <= i < pre.len() implies #[trigger] pre[i].name@ != set.name@ by {
        lemma_lex_lt_irrefl(set.name@);
    }
    lemma_set_for_at(post, p);
    lemma_sorted_unique(post);
    lemma_sorted_unique(pre);
    assert forall|q: Seq<char>| q != set.name@ implies #[trigger] set_for_in(post, q)
        == set_for_in(pre, q) by {
        if contains_name(pre, q) {
            let i = choose|i: int| 0 <= i < pre.len() && #[trigger] pre[i].name@ == q;
            let i2: int = if i < p {
                i
            } else {
                i + 1
            };
            assert(post[i2] == pre[i]);
            assert(contains_name(post, q));
            assert(set_for_in(pre, q) == Some(pre[i]));
            assert(set_for_in(post, q) == Some(post[i2]));
        } else {
            if contains_name(post, q) {
                let c = choose|i: int| 0 <= i < post.len() && #[trigger] post[i].name@ == q;
                if c < p {
                    assert(pre[c].name@ == q);
                } else if c > p {
                    assert(pre[c - 1].name@ == q);
                }
                assert(false);
            }
        }
    }
}

/// Replacing the set that already carries a name keeps the order and changes
/// no other lookup.
proof fn lemma_replace_sorted(pre: Seq<IconSet>, p: int, set: IconSet)
    requires
        sorted_names(pre),
        0 <= p < pre.len(),
        pre[p].name@ == set.name@,
    ensures
        sorted_names(pre.update(p, set)),
        contains_name(pre, set.name@),
        set_for_in(pre.update(p, set), set.name@) == Some(set),
        forall|q: Seq<char>|
            q != set.name@ ==> #[trigger] set_for_in(pre.update(p, set), q) == set_for_in(pre, q),
{
    let post = pre.update(p, set);
    assert forall|i: int| 0 <= i < post.len() implies #[trigger] post[i].name@
        == pre[i].name@ by {}
    assert forall|i: int, j: int| 0 <= i < j < post.len() implies lex_lt(
        post[i].name@,
        post[j].name@,
    ) by {
        assert(lex_lt(pre[i].name@, pre[j].name@));
    }
    lemma_set_for_at(post, p);
    lemma_sorted_unique(post);
    lemma_sorted_unique(pre);
    assert forall|q: Seq<char>| q != set.name@ implies #[trigger] set_for_in(post, q)
        == set_for_in(pre, q) by {
        if contains_name(pre, q) {
            let i = choose|i: int| 0 <= i < pre.len() && #[trigger] pre[i].name@ == q;
            assert(post[i].name@ == q);
            assert(contains_name(post, q));
            assert(i != p);
            assert(set_for_in(pre, q) == Some(pre[i]));
            assert(set_for_in(post, q) == Some(post[i]));
        } else {
            if contains_name(post, q) {
                let c = choose|i: int| 0 <= i < post.len() && #[trigger] post[i].name@ == q;
                assert(pre[c].name@ == q);
                assert(false);
            }
        }
    }
}

/// Frames held by an optional frame vector, for specification purposes.
pub open spec fn opt_frames_view(o: Option<Vec<Vec<u8>>>) -> Option<Seq<Seq<u8>>> {
    match o {
        Some(v) => Some(v.deep_view()),
        None => None,
    }
}

/// Build one icon family's set from its metadata entry, cutting each named
/// theme's frames out of the blob.
fn build_set(blob: &Vec<u8>, entry: &IconMeta) -> (r: Result<IconSet, IconLoadError>)
    requires
        forall|j1: int, j2: int|
            0 <= j1 < j2 < entry.groups@.len() && (#[trigger] spec_parse_theme(
                entry.groups@[j1].theme_key@,
            )) is Some && (#[trigger] spec_parse_theme(entry.groups@[j2].theme_key@)) is Some
                ==> spec_parse_theme(entry.groups@[j1].theme_key@) != spec_parse_theme(
                entry.groups@[j2].theme_key@,
            ),
    ensures
        match r {
            Ok(s) => {
                &&& entry_in_bounds(blob@.len() as int, entry.groups@)
                &&& s.name@ == entry.name@
                &&& s.supports_themes == true
                &&& spec_frames(s, Theme::Dark) == entry_frames(blob@, entry.groups@, Theme::Dark)
                &&& spec_frames(s, Theme::Light) == entry_frames(blob@, entry.groups@, Theme::Light)
            },
            Err(e) => {
                &&& !entry_in_bounds(blob@.len() as int, entry.groups@)
                &&& match e {
                    IconLoadError::InvalidGroup { icon_name, theme_key } => {
                        &&& icon_name@ == entry.name@
                        &&& exists|j: int|
                            0 <= j < entry.groups@.len() && (#[trigger] entry.groups@[j].theme_key@)
                                == theme_key@ && spec_parse_theme(entry.groups@[j].theme_key@)
                                is Some && !group_in_bounds(
                                blob@.len() as int,
                                entry.groups@[j].info.offset as int,
                                entry.groups@[j].info.sizes@,
                            )
                    },
                    IconLoadError::DecompressFailed => false,
                }
            },
        },
{
    let mut dark: Option<Vec<Vec<u8>>> = None;
    let mut light: Option<Vec<Vec<u8>>> = None;
    let g = entry.groups.len();
    proof {
        assert(entry.groups@.take(0) =~= Seq::<ThemeGroupMeta>::empty());
        assert(entry_frames(blob@, Seq::<ThemeGroupMeta>::empty(), Theme::Dark) is None);
        assert(entry_frames(blob@, Seq::<ThemeGroupMeta>::empty(), Theme::Light) is None);
    }
    for j in 0..g
        invariant
            g == entry.groups@.len(),
            forall|j1: int, j2: int|
                0 <= j1 < j2 < entry.groups@.len() && (#[trigger] spec_parse_theme(
                    entry.groups@[j1].theme_key@,
                )) is Some && (#[trigger] spec_parse_theme(entry.groups@[j2].theme_key@)) is Some
                    ==> spec_parse_theme(entry.groups@[j1].theme_key@) != spec_parse_theme(
                    entry.groups@[j2].theme_key@,
                ),
            opt_frames_view(dark) == entry_frames(
                blob@,
                entry.groups@.take(j as int),
                Theme::Dark,
            ),
            opt_frames_view(light) == entry_frames(
                blob@,
                entry.groups@.take(j as int),
                Theme::Light,
            ),
            forall|k: int|
                0 <= k < j && (#[trigger] spec_parse_theme(entry.groups@[k].theme_key@)) is Some
                    ==> group_in_bounds(
                    blob@.len() as int,
                    entry.groups@[k].info.offset as int,
                    entry.groups@[k].info.sizes@,
                ),
    {
        let group = &entry.groups[j];
        let ghost taken = entry.groups@.take(j as int);
        proof {
            assert(taken.push(entry.groups@[j as int]) =~= entry.groups@.take(j + 1));
            lemma_entry_frames_push(blob@, taken, entry.groups@[j as int], Theme::Dark);
            lemma_entry_frames_push(blob@, taken, entry.groups@[j as int], Theme::Light);
        }
        match parse_theme(group.theme_key.as_str()) {
            None => {},
            Some(t) => {
                let frames = match extract_group(blob, &group.info) {
                    Some(f) => f,
                    None => {
                        return Err(
                            IconLoadError::InvalidGroup {
                                icon_name: entry.name.clone(),
                                theme_key: group.theme_key.clone(),
                            },
                        );
                    },
                };
                proof {
                    lemma_entry_frames_some(blob@, taken, t);
                    if entry_frames(blob@, taken, t) is Some {
                        let k = choose|k: int|
                            0 <= k < taken.len() && spec_parse_theme(
                                #[trigger] taken[k].theme_key@,
                            ) == Some(t);
                        assert(taken[k] == entry.groups@[k]);
                        assert(false);
                    }
                }
                match t {
                    Theme::Dark => {
                        dark = Some(frames);
                    },
                    Theme::Light => {
                        light = Some(frames);
                    },
                }
            },
        }
    }
    proof {
        assert(entry.groups@.take(g as int) =~= entry.groups@);
    }
    Ok(
        IconSet {
            name: entry.name.clone(),
            supports_themes: true,
            dark_frames: dark,
            light_frames: light,
        },
    )
}

/// The catalog holds, under this entry's name, a themed set whose frames
/// are exactly the ones the entry describes over the blob.
pub open spec fn spec_loaded_entry(m: IconManager, blob: Seq<u8>, e: IconMeta) -> bool {
    match m.spec_set_for(e.name@) {
        Some(s) => {
            &&& s.name@ == e.name@
            &&& s.supports_themes == true
            &&& spec_frames(s, Theme::Dark) == entry_frames(blob, e.groups@, Theme::Dark)
            &&& spec_frames(s, Theme::Light) == entry_frames(blob, e.groups@, Theme::Light)
        },
        None => false,
    }
}

/// The immutable catalog of loaded icon families, kept sorted by name.
#[derive(Debug)]
pub struct IconManager {
    sets: Vec<IconSet>,
}

impl IconManager {
    /// The sets, for specification purposes.
    pub closed spec fn sets_view(self) -> Seq<IconSet> {
        self.sets@
    }

    /// Well-formedness: names strictly ascending, hence unique.
    pub open spec fn wf(self) -> bool {
        sorted_names(self.sets_view())
    }

    /// Whether some set carries this family name.
    pub open spec fn spec_contains(self, name: Seq<char>) -> bool {
        contains_name(self.sets_view(), name)
    }

    /// The set registered under a family name, if any.
    pub open spec fn spec_set_for(self, name: Seq<char>) -> Option<IconSet> {
        set_for_in(self.sets_view(), name)
    }

    /// An empty catalog.
    pub fn new() -> (r: Self)
        ensures
            r.wf(),
            r.sets_view().len() == 0,
    {
        IconManager { sets: Vec::new() }
    }

    /// Index of the set with this name, if present.
    fn find(&self, icon_name: &str) -> (r: Option<usize>)
        requires
            self.wf(),
        ensures
            match r {
                Some(i) => i < self.sets_view().len() && self.sets_view()[i as int].name@
                    == icon_name@ && self.spec_set_for(icon_name@) == Some(
                    self.sets_view()[i as int],
                ),
                None => self.spec_set_for(icon_name@) is None,
            },
    {
        let n = self.sets.len();
        for i in 0..n
            invariant
                n == self.sets_view().len(),
                self.wf(),
                forall|k: int| 0 <= k < i ==> #[trigger] self.sets_view()[k].name@ != icon_name@,
        {
            if str_eq(self.sets[i].name.as_str(), icon_name) {
                proof {
                    lemma_set_for_at(self.sets_view(), i as int);
                }
                return Some(i);
            }
        }
        None
    }

    /// Load the catalog: decompress the bundled asset blob and cut each
    /// family's frame sequences out of it as the metadata table directs.
    /// Called once at startup; failure is fatal to the caller.
    pub fn load_icons(compressed: &[u8], metadata: &Vec<IconMeta>) -> (r: Result<
        IconManager,
        IconLoadError,
    >)
        requires
            meta_well_formed(metadata@),
        ensures
            r is Ok <==> gunzip_of(compressed@) is Some && meta_in_bounds(
                gunzip_of(compressed@).unwrap().len() as int,
                metadata@,
            ),
            match r {
                Ok(m) => {
                    &&& m.wf()
                    &&& m.sets_view().len() == metadata@.len()
                    &&& forall|i: int|
                        0 <= i < metadata@.len() ==> spec_loaded_entry(
                            m,
                            gunzip_of(compressed@).unwrap(),
                            #[trigger] metadata@[i],
                        )
                },
                Err(e) => match e {
                    IconLoadError::DecompressFailed => gunzip_of(compressed@) is None,
                    IconLoadError::InvalidGroup { icon_name, theme_key } => {
                        &&& gunzip_of(compressed@) is Some
                        &&& exists|i: int, j: int|
                            {
                                &&& 0 <= i < metadata@.len()
                                &&& (#[trigger] metadata@[i].name@) == icon_name@
                                &&& 0 <= j < metadata@[i].groups@.len()
                                &&& (#[trigger] metadata@[i].groups@[j].theme_key@) == theme_key@
                                &&& spec_parse_theme(metadata@[i].groups@[j].theme_key@) is Some
                                &&& !group_in_bounds(
                                    gunzip_of(compressed@).unwrap().len() as int,
                                    metadata@[i].groups@[j].info.offset as int,
                                    metadata@[i].groups@[j].info.sizes@,
                                )
                            }
                    },
                },
            },
    {
        let blob = match gunzip(compressed) {
            Some(b) => b,
            None => {
                return Err(IconLoadError::DecompressFailed);
            },
        };
        let mut manager = IconManager::new();
        let n = metadata.len();
        for i in 0..n
            invariant
                n == metadata@.len(),
                meta_well_formed(metadata@),
                gunzip_of(compressed@) == Some(blob@),
                manager.wf(),
                manager.sets_view().len() == i,
                forall|k: int|
                    0 <= k < i ==> spec_loaded_entry(manager, blob@, #[trigger] metadata@[k]),
                forall|k: int|
                    0 <= k < i ==> entry_in_bounds(blob@.len() as int, #[trigger] metadata@[k].groups@),
                forall|q: Seq<char>|
                    #[trigger] manager.spec_contains(q) ==> exists|k: int|
                        0 <= k < i && (#[trigger] metadata@[k].name@) == q,
        {
            let set = match build_set(&blob, &metadata[i]) {
                Ok(s) => s,
                Err(e) => {
                    return Err(e);
                },
            };
            proof {
                if manager.spec_contains(set.name@) {
                    let k = choose|k: int|
                        0 <= k < i && (#[trigger] metadata@[k].name@) == set.name@;
                    assert(metadata@[k].name@ == metadata@[i as int].name@);
                    assert(false);
                }
            }
            let ghost before = manager;
            manager.insert_set(set);
            proof {
                assert forall|q: Seq<char>| #[trigger] manager.spec_contains(q) implies exists|k: int|
                    0 <= k < i + 1 && (#[trigger] metadata@[k].name@) == q by {
                    if q == metadata@[i as int].name@ {
                        assert(metadata@[i as int].name@ == q);
                    } else {
                        assert(manager.spec_set_for(q) == before.spec_set_for(q));
                        assert(before.spec_contains(q));
                    }
                }
            }
        }
        Ok(manager)
    }

    /// Insert a loaded set at its sorted slot, replacing any set of the
    /// same name.
    fn insert_set(&mut self, set: IconSet)
        requires
            old(self).wf(),
        ensures
            final(self).wf(),
            final(self).spec_set_for(set.name@) == Some(set),
            forall|q: Seq<char>|
                q != set.name@ ==> #[trigger] final(self).spec_set_for(q) == old(self).spec_set_for(
                    q,
                ),
            old(self).spec_contains(set.name@) ==> final(self).sets_view().len() == old(
                self,
            ).sets_view().len(),
            !old(self).spec_contains(set.name@) ==> final(self).sets_view().len() == old(
                self,
            ).sets_view().len() + 1,
    {
        let ghost prior = self.sets@;
        let n = self.sets.len();
        let mut p: usize = 0;
        while p < n && str_lt(self.sets[p].name.as_str(), set.name.as_str())
            invariant
                p <= n,
                n == self.sets@.len(),
                self.sets@ == prior,
                forall|k: int| 0 <= k < p ==> lex_lt(#[trigger] self.sets@[k].name@, set.name@),
            decreases n - p,
        {
            p = p + 1;
        }
        if p < n && str_eq(self.sets[p].name.as_str(), set.name.as_str()) {
            let ghost setg = set;
            self.sets[p] = set;
            proof {
                lemma_replace_sorted(prior, p as int, setg);
                assert(self.sets@ == prior.update(p as int, setg));
            }
        } else {
            proof {
                if p < n {
                    lemma_lex_lt_total(prior[p as int].name@, set.name@);
                }
            }
            let ghost setg = set;
            self.sets.insert(p, set);
            proof {
                lemma_insert_sorted(prior, p as int, setg);
                assert(self.sets@ == prior.insert(p as int, setg));
            }
        }
    }

    /// The frame sequence that a lookup resolves to: the requested theme's
    /// frames where a theme is given, or the system theme's frames where
    /// none is; either way a family that lacks the wanted theme answers
    /// with whichever theme it does hold, so that a known family with any
    /// frames at all never resolves to nothing.
    pub open spec fn spec_get_icon_set(
        self,
        name: Seq<char>,
        theme: Option<Theme>,
        system_dark: bool,
    ) -> Option<Seq<Seq<u8>>> {
        match self.spec_set_for(name) {
            None => None,
            Some(s) => match theme {
                Some(t) => if spec_frames(s, t) is Some {
                    spec_frames(s, t)
                } else {
                    spec_first_frames(s)
                },
                None => if s.supports_themes {
                    if spec_frames(s, spec_theme_from_system(system_dark)) is Some {
                        spec_frames(s, spec_theme_from_system(system_dark))
                    } else {
                        spec_first_frames(s)
                    }
                } else {
                    spec_first_frames(s)
                },
            },
        }
    }

    /// Resolve a family and theme to the frames to animate.  With `theme`
    /// given, that theme's frames answer; without one, the system theme
    /// decides.  A family that lacks the wanted theme falls back to
    /// whichever theme it holds; only unknown family names, and families
    /// with no frames at all, resolve to nothing.
    pub fn get_icon_set(&self, icon_name: &str, theme: Option<Theme>, system_dark: bool) -> (r:
        Option<&Vec<Vec<u8>>>)
        requires
            self.wf(),
        ensures
            match r {
                Some(v) => self.spec_get_icon_set(icon_name@, theme, system_dark) == Some(
                    v.deep_view(),
                ),
                None => self.spec_get_icon_set(icon_name@, theme, system_dark) is None,
            },
    {
        let i = match self.find(icon_name) {
            Some(i) => i,
            None => {
                return None;
            },
        };
        let set = &self.sets[i];
        match theme {
            Some(t) => match t {
                Theme::Dark => match &set.dark_frames {
                    Some(v) => Some(v),
                    None => first_frames(set),
                },
                Theme::Light => match &set.light_frames {
                    Some(v) => Some(v),
                    None => first_frames(set),
                },
            },
            None => {
                if set.supports_themes {
                    match Theme::from_system(system_dark) {
                        Theme::Dark => match &set.dark_frames {
                            Some(v) => Some(v),
                            None => first_frames(set),
                        },
                        Theme::Light => match &set.light_frames {
                            Some(v) => Some(v),
                            None => first_frames(set),
                        },
                    }
                } else {
                    first_frames(set)
                }
            },
        }
    }

    /// The names of all loaded families, in their catalog order, which is
    /// ascending by name.
    pub fn available_icons(&self) -> (r: Vec<String>)
        ensures
            r@.len() == self.sets_view().len(),
            forall|i: int| 0 <= i < r@.len() ==> (#[trigger] r@[i])@ == self.sets_view()[i].name@,
            self.wf() ==> forall|i: int, j: int|
                0 <= i < j < r@.len() ==> lex_lt(#[trigger] r@[i]@, #[trigger] r@[j]@),
    {
        let mut icons: Vec<String> = Vec::new();
        let n = self.sets.len();
        for i in 0..n
            invariant
                n == self.sets_view().len(),
                icons@.len() == i,
                forall|k: int|
                    0 <= k < i ==> (#[trigger] icons@[k])@ == self.sets_view()[k].name@,
        {
            icons.push(self.sets[i].name.clone());
        }
        icons
    }

    /// The themes a family holds frames for, dark before light; unknown
    /// families hold none.
    pub fn available_themes_for_icon(&self, icon_name: &str) -> (r: Vec<Theme>)
        requires
            self.wf(),
        ensures
            r@ == spec_available_themes(self.spec_set_for(icon_name@)),
    {
        let mut themes: Vec<Theme> = Vec::new();
        match self.find(icon_name) {
            None => {},
            Some(i) => {
                let set = &self.sets[i];
                if set.dark_frames.is_some() {
                    themes.push(Theme::Dark);
                }
                if set.light_frames.is_some() {
                    themes.push(Theme::Light);
                }
            },
        }
        proof {
            assert(themes@ =~= spec_available_themes(self.spec_set_for(icon_name@)));
        }
        themes
    }

    /// Whether the family takes part in theming; unknown names do not.
    pub fn supports_themes(&self, icon_name: &str) -> (r: bool)
        requires
            self.wf(),
        ensures
            r == match self.spec_set_for(icon_name@) {
                Some(s) => s.supports_themes,
                None => false,
            },
    {
        match self.find(icon_name) {
            Some(i) => self.sets[i].supports_themes,
            None => false,
        }
    }

    /// The icon family that a legacy numeric settings id selected.
    pub fn migrate_from_numeric_id(old_id: usize) -> (r: String)
        ensures
            r@ == spec_migrated_icon_name(old_id),
    {
        let is_cat = (old_id & 2) == 0;
        if is_cat {
            "cat".to_owned()
        } else {
            "parrot".to_owned()
        }
    }

    /// The theme that a legacy numeric settings id selected.
    pub fn get_theme_from_numeric_id(old_id: usize) -> (r: Theme)
        ensures
            r == spec_theme_of_numeric_id(old_id),
    {
        let is_dark = (old_id & 1) == 0;
        if is_dark {
            Theme::Dark
        } else {
            Theme::Light
        }
    }
}

/// Icon family selected by a legacy numeric id: bit 1 clear means the cat.
pub open spec fn spec_migrated_icon_name(old_id: usize) -> Seq<char> {
    if old_id & 2 == 0 {
        "cat"@
    } else {
        "parrot"@
    }
}

/// Theme selected by a legacy numeric id: bit 0 clear means dark.
pub open spec fn spec_theme_of_numeric_id(old_id: usize) -> Theme {
    if old_id & 1 == 0 {
        Theme::Dark
    } else {
        Theme::Light
    }
}

/// The themes whose frames a lookup result holds, dark before light.
pub open spec fn spec_available_themes(s: Option<IconSet>) -> Seq<Theme> {
    match s {
        None => Seq::empty(),
        Some(s) => (if s.dark_frames is Some {
            seq![Theme::Dark]
        } else {
            Seq::empty()
        }) + (if s.light_frames is Some {
            seq![Theme::Light]
        } else {
            Seq::empty()
        }),
    }
}

/// The frames of the first theme a lookup result holds, dark before light.
fn first_frames(set: &IconSet) -> (r: Option<&Vec<Vec<u8>>>)
    ensures
        match r {
            Some(v) => spec_first_frames(*set) == Some(v.deep_view()),
            None => spec_first_frames(*set) is None,
        },
{
    match &set.dark_frames {
        Some(v) => Some(v),
        None => match &set.light_frames {
            Some(v) => Some(v),
            None => None,
        },
    }
}

/// Fallback correctness: a known icon family that takes part in theming and
/// holds at least one theme's frame group always resolves, for an explicitly
/// requested theme as much as under automatic selection, and what it
/// resolves to is one of its own themes' frame sequences, never an empty
/// answer.
pub proof fn lemma_theme_fallback(
    m: IconManager,
    name: Seq<char>,
    theme: Option<Theme>,
    system_dark: bool,
)
    requires
        m.wf(),
        m.spec_set_for(name) is Some,
        m.spec_set_for(name).unwrap().supports_themes,
        spec_available_themes(m.spec_set_for(name)).len() > 0,
    ensures
        m.spec_get_icon_set(name, theme, system_dark) is Some,
        exists|t: Theme|
            #[trigger] spec_frames(m.spec_set_for(name).unwrap(), t) == Some(
                m.spec_get_icon_set(name, theme, system_dark).unwrap(),
            ),
{
    let s = m.spec_set_for(name).unwrap();
    if s.dark_frames is None && s.light_frames is None {
        assert(spec_available_themes(m.spec_set_for(name)).len() == 0);
    }
    let answer = m.spec_get_icon_set(name, theme, system_dark);
    let wanted = match theme {
        Some(t) => t,
        None => spec_theme_from_system(system_dark),
    };
    if spec_frames(s, wanted) is Some {
        assert(spec_frames(s, wanted) == Some(answer.unwrap()));
    } else if s.dark_frames is Some {
        assert(spec_frames(s, Theme::Dark) == Some(answer.unwrap()));
    } else {
        assert(spec_frames(s, Theme::Light) == Some(answer.unwrap()));
    }
}

/// Resolution is exact: a lookup comes back empty precisely for a family
/// name the catalog does not hold, or for a family that holds no frames
/// for any theme — never because of which theme was asked for.
pub proof fn lemma_resolution_exact(
    m: IconManager,
    name: Seq<char>,
    theme: Option<Theme>,
    system_dark: bool,
)
    requires
        m.wf(),
    ensures
        (m.spec_get_icon_set(name, theme, system_dark) is None) <==> match m.spec_set_for(name) {
            None => true,
            Some(s) => s.dark_frames is None && s.light_frames is None,
        },
{
}

impl Default for IconManager {
    /// An empty catalog.
    fn default() -> (r: Self)
        ensures
            r.wf(),
            r.sets_view().len() == 0,
    {
        IconManager::new()
    }
}

} // verus!
