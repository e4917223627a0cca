//! Filesystem locations as plain values, and the rule that derives the
//! companion executable's location from the running executable's own.

use vstd::prelude::*;
use vstd::string::*;

verus! {

/// How the shell was built. It decides where the companion executable is
/// looked for.
#[derive(Clone, Copy, Debug, PartialEq, Eq, Structural)]
pub enum BuildMode {
    /// Built into a nested build-output directory below the project root.
    Debug,
    /// Installed: the companion sits beside the shell's executable.
    Release,
}

/// Number of directories between the project root and the directory that
/// holds a debug executable.
pub const DEBUG_ASCENT: usize = 3;

/// File name of the companion executable.
pub open spec fn companion_file() -> Seq<char> {
    "lise-agent.exe"@
}

/// Directories from the project root down to the companion executable in a
/// debug build.
pub open spec fn debug_subdirectory() -> Seq<Seq<char>> {
    seq!["agent"@, "dist"@]
}

/// The texts of a sequence of strings.
pub open spec fn texts(items: Seq<String>) -> Seq<Seq<char>> {
    Seq::new(items.len(), |i: int| items[i]@)
}

/// A filesystem location: an anchor (a root or drive prefix, possibly empty)
/// that going up never removes, the segments below it, and the text that
/// separates segments when the location is written out.
#[derive(Clone, Debug, PartialEq, Eq)]
pub struct Location {
    pub anchor: String,
    pub segments: Vec<String>,
    pub separator: String,
}

/// Mathematical value of a [`Location`].
pub struct LocationView {
    pub anchor: Seq<char>,
    pub segments: Seq<Seq<char>>,
    pub separator: Seq<char>,
}

impl View for Location {
    type V = LocationView;

    open spec fn view(&self) -> LocationView {
        LocationView {
            anchor: self.anchor@,
            segments: texts(self.segments@),
            separator: self.separator@,
        }
    }
}

/// Where a companion file lies relative to the directory of an executable:
/// `ascent` directories up, then down through `descent`, whose last entry is
/// the file's name.
#[derive(Clone, Debug, PartialEq, Eq)]
pub struct Layout {
    pub ascent: usize,
    pub descent: Vec<String>,
}

/// Mathematical value of a [`Layout`].
pub struct LayoutView {
    pub ascent: nat,
    pub descent: Seq<Seq<char>>,
}

impl View for Layout {
    type V = LayoutView;

    open spec fn view(&self) -> LayoutView {
        LayoutView { ascent: self.ascent as nat, descent: texts(self.descent@) }
    }
}

/// One step up: the last segment goes; at the anchor nothing changes.
pub open spec fn spec_parent(segments: Seq<Seq<char>>) -> Seq<Seq<char>> {
    if segments.len() == 0 {
        segments
    } else {
        segments.drop_last()
    }
}

/// `levels` steps up: the last `levels` segments go, or all of them where
/// there are fewer.
pub open spec fn spec_ascend(segments: Seq<Seq<char>>, levels: nat) -> Seq<Seq<char>> {
    if levels >= segments.len() {
        Seq::empty()
    } else {
        segments.take(segments.len() - levels)
    }
}

/// The location that `layout` designates for the executable at `exe`: the
/// executable's file name is dropped, then the layout is followed.
pub open spec fn spec_resolve(exe: LocationView, layout: LayoutView) -> LocationView {
    LocationView {
        anchor: exe.anchor,
        segments: spec_ascend(spec_parent(exe.segments), layout.ascent) + layout.descent,
        separator: exe.separator,
    }
}

/// The layout that belongs to each build mode.
pub open spec fn spec_layout(mode: BuildMode) -> LayoutView {
    match mode {
        BuildMode::Debug => LayoutView {
            ascent: DEBUG_ASCENT as nat,
            descent: debug_subdirectory().push(companion_file()),
        },
        BuildMode::Release => LayoutView { ascent: 0, descent: seq![companion_file()] },
    }
}

/// Where the companion executable is expected for the executable at `exe`.
pub open spec fn spec_companion(exe: LocationView, mode: BuildMode) -> LocationView {
    spec_resolve(exe, spec_layout(mode))
}

/// Segments written one after the other with `separator` between them.
pub open spec fn spec_join(segments: Seq<Seq<char>>, separator: Seq<char>) -> Seq<char>
    decreases segments.len(),
{
    if segments.len() == 0 {
        Seq::empty()
    } else if segments.len() == 1 {
        segments[0]
    } else {
        spec_join(segments.drop_last(), separator) + separator + segments.last()
    }
}

/// A location written out: the anchor, then the joined segments.
pub open spec fn spec_display(location: LocationView) -> Seq<char> {
    location.anchor + spec_join(location.segments, location.separator)
}

/// Copies the first `count` strings of `source`.
fn copy_prefix(source: &Vec<String>, count: usize) -> (copy: Vec<String>)
    requires
        count <= source.len(),
    ensures
        texts(copy@) == texts(source@).take(count as int),
{
    let mut copy: Vec<String> = Vec::new();
    let mut i: usize = 0;
    while i < count
        invariant
            i <= count <= source.len(),
            texts(copy@) == texts(source@).take(i as int),
        decreases count - i,
    {
        let ghost before = copy@;
        copy.push(source[i].clone());
        assert(texts(copy@) =~= texts(before).push(source[i as int]@));
        assert(texts(source@).take(i + 1) =~= texts(source@).take(i as int).push(source[i as int]@));
        i += 1;
    }
    assert(texts(copy@) =~= texts(source@).take(count as int));
    copy
}

/// Appends copies of the strings of `source` to `target`.
fn extend_with(target: &mut Vec<String>, source: &Vec<String>)
    ensures
        texts(final(target)@) == texts(old(target)@) + texts(source@),
{
    let mut i: usize = 0;
    assert(texts(target@) =~= texts(old(target)@) + texts(source@).take(0));
    while i < source.len()
        invariant
            i <= source.len(),
            texts(target@) == texts(old(target)@) + texts(source@).take(i as int),
        decreases source.len() - i,
    {
        let ghost before = target@;
        target.push(source[i].clone());
        assert(texts(target@) =~= texts(before).push(source[i as int]@));
        assert(texts(source@).take(i + 1) =~= texts(source@).take(i as int).push(source[i as int]@));
        assert(texts(target@) =~= texts(old(target)@) + texts(source@).take(i + 1));
        i += 1;
    }
    assert(texts(source@).take(i as int) =~= texts(source@));
}

impl Layout {
    /// The layout that belongs to `mode`.
    pub fn for_mode(mode: BuildMode) -> (layout: Layout)
        ensures
            layout@ == spec_layout(mode),
    {
        let mut descent: Vec<String> = Vec::new();
        match mode {
            BuildMode::Debug => {
                descent.push(String::from_str("agent"));
                descent.push(String::from_str("dist"));
                descent.push(String::from_str("lise-agent.exe"));
                assert(texts(descent@) =~= debug_subdirectory().push(companion_file()));
                Layout { ascent: DEBUG_ASCENT, descent }
            },
            BuildMode::Release => {
                descent.push(String::from_str("lise-agent.exe"));
                assert(texts(descent@) =~= seq![companion_file()]);
                Layout { ascent: 0, descent }
            },
        }
    }
}

impl Location {
    /// A copy with the same value.
    pub fn duplicate(&self) -> (copy: Location)
        ensures
            copy@ == self@,
    {
        let segments = copy_prefix(&self.segments, self.segments.len());
        assert(texts(self.segments@).take(self.segments.len() as int) =~= texts(self.segments@));
        Location { anchor: self.anchor.clone(), segments, separator: self.separator.clone() }
    }

    /// The location that `layout` designates, taking `self` as the location
    /// of an executable file.
    pub fn resolve(&self, layout: &Layout) -> (target: Location)
        ensures
            target@ == spec_resolve(self@, layout@),
    {
        let total: usize = self.segments.len();
        let below: usize = if total == 0 { 0 } else { total - 1 };
        let keep: usize = if layout.ascent >= below { 0 } else { below - layout.ascent };
        let mut segments = copy_prefix(&self.segments, keep);
        assert(texts(segments@) =~= spec_ascend(spec_parent(self@.segments), layout@.ascent));
        extend_with(&mut segments, &layout.descent);
        Location { anchor: self.anchor.clone(), segments, separator: self.separator.clone() }
    }

    /// Where the companion executable is expected, taking `self` as the
    /// location of the running executable.
    pub fn companion(&self, mode: BuildMode) -> (target: Location)
        ensures
            target@ == spec_companion(self@, mode),
    {
        let layout = Layout::for_mode(mode);
        self.resolve(&layout)
    }

    /// The location written out as text.
    pub fn display(&self) -> (text: String)
        ensures
            text@ == spec_display(self@),
    {
        let mut text = self.anchor.clone();
        let mut i: usize = 0;
        assert(text@ =~= self.anchor@ + spec_join(self@.segments.take(0), self.separator@));
        while i < self.segments.len()
            invariant
                i <= self.segments.len(),
                text@ == self.anchor@ + spec_join(self@.segments.take(i as int), self.separator@),
            decreases self.segments.len() - i,
        {
            let ghost done = self@.segments.take(i as int);
            let ghost next = self@.segments.take(i + 1);
            assert(next.drop_last() =~= done);
            assert(next.last() == self.segments[i as int]@);
            if i > 0 {
                text.append(self.separator.as_str());
            }
            text.append(self.segments[i].as_str());
            assert(text@ =~= self.anchor@ + spec_join(next, self.separator@));
            i += 1;
        }
        assert(self@.segments.take(i as int) =~= self@.segments);
        text
    }
}

/// Going up one level more is one more step to the parent.
pub proof fn law_ascend_is_repeated_parent(segments: Seq<Seq<char>>, levels: nat)
    ensures
        spec_ascend(segments, 0) == segments,
        spec_ascend(segments, levels + 1) == spec_parent(spec_ascend(segments, levels)),
{
    assert(spec_ascend(segments, 0) =~= segments);
    assert(spec_ascend(segments, levels + 1) =~= spec_parent(spec_ascend(segments, levels)));
}

/// In a release build the companion lies in the directory of the running
/// executable: the executable's file name is replaced by the companion's.
pub proof fn law_release_companion_is_sibling(exe: LocationView)
    ensures
        spec_companion(exe, BuildMode::Release) == (LocationView {
            anchor: exe.anchor,
            segments: spec_parent(exe.segments).push(companion_file()),
            separator: exe.separator,
        }),
{
    assert(spec_companion(exe, BuildMode::Release).segments =~= spec_parent(exe.segments).push(
        companion_file(),
    ));
}

/// In a debug build the companion is found by leaving the executable's
/// directory three parents upwards and descending through the fixed
/// subdirectory from there.
pub proof fn law_debug_companion_is_three_up(exe: LocationView)
    ensures
        spec_companion(exe, BuildMode::Debug) == (LocationView {
            anchor: exe.anchor,
            segments: spec_parent(spec_parent(spec_parent(spec_parent(exe.segments))))
                + debug_subdirectory().push(companion_file()),
            separator: exe.separator,
        }),
{
    let directory = spec_parent(exe.segments);
    law_ascend_is_repeated_parent(directory, 0);
    law_ascend_is_repeated_parent(directory, 1);
    law_ascend_is_repeated_parent(directory, 2);
}

} // verus!
