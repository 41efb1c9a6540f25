//! Version bookkeeping for resources that are reloaded when their files
//! change, and the geometry handed to the drawing layer.
//!
//! Nothing here touches a file or a graphics context. The caller watches the
//! files, names each by one canonical path, loads and frees the native
//! objects, and tells these types what happened; they decide when a reload is
//! due and which native object is current.

use vstd::prelude::*;
use crate::rect::Rect;

verus! {

/// One registered resource file and the number of writes seen since it was
/// registered.
pub struct Entry {
    pub path: String,
    pub version: u64,
}

/// The versions of the registered files, keyed by path.
pub open spec fn versions_of(entries: Seq<Entry>) -> Map<Seq<char>, u64>
    decreases entries.len(),
{
    if entries.len() == 0 {
        Map::empty()
    } else {
        versions_of(entries.drop_last()).insert(entries.last().path@, entries.last().version)
    }
}

/// No path is held by two entries.
pub open spec fn distinct_paths(entries: Seq<Entry>) -> bool {
    forall|i: int, j: int|
        0 <= i < j < entries.len() ==> (#[trigger] entries[i]).path@ != (#[trigger] entries[j]).path@
}

/// With distinct paths, the registry maps exactly the held paths, each to
/// the version beside it.
pub proof fn lemma_versions_of(entries: Seq<Entry>)
    requires
        distinct_paths(entries),
    ensures
        forall|p: Seq<char>|
            versions_of(entries).contains_key(p) <==> exists|i: int|
                0 <= i < entries.len() && (#[trigger] entries[i]).path@ == p,
        forall|i: int|
            0 <= i < entries.len() ==> versions_of(entries)[(#[trigger] entries[i]).path@]
                == entries[i].version,
    decreases entries.len(),
{
    if entries.len() > 0 {
        let front = entries.drop_last();
        lemma_versions_of(front);
        assert forall|p: Seq<char>| versions_of(entries).contains_key(p) implies exists|i: int|
            0 <= i < entries.len() && (#[trigger] entries[i]).path@ == p by {
            if p != entries.last().path@ {
                assert(versions_of(front).contains_key(p));
                let i = choose|i: int| 0 <= i < front.len() && (#[trigger] front[i]).path@ == p;
                assert(front[i] == entries[i]);
                assert(entries[i].path@ == p);
            } else {
                assert(entries[entries.len() - 1].path@ == p);
            }
        }
        assert forall|p: Seq<char>|
            (exists|i: int|
                0 <= i < entries.len() && (#[trigger] entries[i]).path@ == p) implies versions_of(
            entries,
        ).contains_key(p) by {
            let i = choose|i: int| 0 <= i < entries.len() && (#[trigger] entries[i]).path@ == p;
            if i < entries.len() - 1 {
                assert(front[i] == entries[i]);
                assert(front[i].path@ == p);
            }
        }
        assert forall|i: int| 0 <= i < entries.len() implies versions_of(entries)[(
        #[trigger] entries[i]).path@] == entries[i].version by {
            if i < entries.len() - 1 {
                assert(front[i] == entries[i]);
                assert(entries[i].path@ != entries[entries.len() - 1].path@);
            }
        }
    }
}

/// The registry of watched resource files: for each registered path, how
/// many writes to it have been reported.
pub struct Content {
    entries: Vec<Entry>,
}

impl View for Content {
    type V = Map<Seq<char>, u64>;

    closed spec fn view(&self) -> Map<Seq<char>, u64> {
        versions_of(self.entries@)
    }
}

impl Content {
    /// No path is registered twice.
    pub closed spec fn wf(&self) -> bool {
        distinct_paths(self.entries@)
    }

    /// An empty registry.
    pub fn new() -> (c: Content)
        ensures
            c.wf(),
            c@ == Map::<Seq<char>, u64>::empty(),
    {
        Content { entries: Vec::new() }
    }

    /// Where `path` is held, if it is.
    fn position(&self, path: &String) -> (at: Option<usize>)
        requires
            self.wf(),
        ensures
            match at {
                Some(i) => i < self.entries@.len() && self.entries@[i as int].path@ == path@,
                None => forall|k: int|
                    0 <= k < self.entries@.len() ==> (#[trigger] self.entries@[k]).path@ != path@,
            },
            at is Some <==> self@.contains_key(path@),
    {
        let mut i: usize = 0;
        while i < self.entries.len()
            invariant
                self.wf(),
                i <= self.entries@.len(),
                forall|k: int| 0 <= k < i ==> (#[trigger] self.entries@[k]).path@ != path@,
            decreases self.entries@.len() - i,
        {
            if self.entries[i].path == *path {
                proof {
                    lemma_versions_of(self.entries@);
                    assert(self.entries@[i as int].path@ == path@);
                }
                return Some(i);
            }
            i = i + 1;
        }
        proof {
            lemma_versions_of(self.entries@);
        }
        None
    }

    /// The version recorded for `path`, if it is registered.
    pub fn version(&self, path: &String) -> (v: Option<u64>)
        requires
            self.wf(),
        ensures
            v == (if self@.contains_key(path@) {
                Some(self@[path@])
            } else {
                None
            }),
    {
        proof {
            lemma_versions_of(self.entries@);
        }
        match self.position(path) {
            Some(i) => Some(self.entries[i].version),
            None => None,
        }
    }

    /// Registers `path` at version 0. A path registered before starts over
    /// at 0.
    pub fn register_file(&mut self, path: String)
        requires
            old(self).wf(),
        ensures
            final(self).wf(),
            final(self)@ == old(self)@.insert(path@, 0),
    {
        proof {
            lemma_versions_of(self.entries@);
        }
        let ghost before = self.entries@;
        let ghost key = path@;
        match self.position(&path) {
            Some(i) => {
                self.entries.set(i, Entry { path, version: 0 });
            },
            None => {
                self.entries.push(Entry { path, version: 0 });
            },
        }
        proof {
            let after = self.entries@;
            assert(distinct_paths(after)) by {
                assert forall|a: int, b: int| 0 <= a < b < after.len() implies (
                #[trigger] after[a]).path@ != (#[trigger] after[b]).path@ by {
                    if a < before.len() {
                        assert(after[a].path@ == before[a].path@);
                    }
                    if b < before.len() {
                        assert(after[b].path@ == before[b].path@);
                    }
                }
            }
            lemma_versions_of(after);
            assert forall|p: Seq<char>|
                versions_of(after).contains_key(p) <==> versions_of(before).insert(
                    key,
                    0,
                ).contains_key(p) by {
                if versions_of(after).contains_key(p) {
                    let i = choose|i: int| 0 <= i < after.len() && (#[trigger] after[i]).path@ == p;
                    if p != key {
                        assert(before[i].path@ == p);
                    }
                }
                if versions_of(before).contains_key(p) {
                    let i = choose|i: int|
                        0 <= i < before.len() && (#[trigger] before[i]).path@ == p;
                    assert(after[i].path@ == p);
                }
                if p == key {
                    let i = choose|i: int| 0 <= i < after.len() && after[i].path@ == key;
                    assert(after[i].path@ == p);
                }
            }
            assert forall|p: Seq<char>| versions_of(after).contains_key(p) implies versions_of(
                after,
            )[p] == versions_of(before).insert(key, 0)[p] by {
                let i = choose|i: int| 0 <= i < after.len() && (#[trigger] after[i]).path@ == p;
                assert(versions_of(after)[after[i].path@] == after[i].version);
                if p != key {
                    assert(before[i] == after[i]);
                    assert(versions_of(before)[before[i].path@] == before[i].version);
                }
            }
            assert(versions_of(after) =~= versions_of(before).insert(key, 0));
        }
    }

    /// Records one write to `path`: its version goes up by one. Reports
    /// whether the path is registered; an unregistered path changes nothing.
    pub fn note_write(&mut self, path: &String) -> (known: bool)
        requires
            old(self).wf(),
            old(self)@.contains_key(path@) ==> old(self)@[path@] < u64::MAX,
        ensures
            final(self).wf(),
            known == old(self)@.contains_key(path@),
            final(self)@ == bumped(old(self)@, path@),
    {
        proof {
            lemma_versions_of(self.entries@);
        }
        let ghost before = self.entries@;
        match self.position(path) {
            Some(i) => {
                let next = self.entries[i].version + 1;
                self.entries.set(i, Entry { path: path.clone(), version: next });
                proof {
                    let after = self.entries@;
                    assert(distinct_paths(after)) by {
                        assert forall|a: int, b: int| 0 <= a < b < after.len() implies (
                        #[trigger] after[a]).path@ != (#[trigger] after[b]).path@ by {
                            assert(after[a].path@ == before[a].path@);
                            assert(after[b].path@ == before[b].path@);
                        }
                    }
                    lemma_versions_of(after);
                    let want = bumped(versions_of(before), path@);
                    assert forall|p: Seq<char>|
                        versions_of(after).contains_key(p) <==> want.contains_key(p) by {
                        if versions_of(after).contains_key(p) {
                            let k = choose|k: int|
                                0 <= k < after.len() && (#[trigger] after[k]).path@ == p;
                            assert(before[k].path@ == p);
                        }
                        if versions_of(before).contains_key(p) {
                            let k = choose|k: int|
                                0 <= k < before.len() && (#[trigger] before[k]).path@ == p;
                            assert(after[k].path@ == p);
                        }
                    }
                    assert forall|p: Seq<char>|
                        versions_of(after).contains_key(p) implies versions_of(after)[p]
                        == want[p] by {
                        let k = choose|k: int|
                            0 <= k < after.len() && (#[trigger] after[k]).path@ == p;
                        assert(versions_of(after)[after[k].path@] == after[k].version);
                        assert(before[k].path@ == p);
                        assert(versions_of(before)[before[k].path@] == before[k].version);
                        if k != i {
                            assert(before[k] == after[k]);
                        }
                    }
                    assert(versions_of(after) =~= want);
                }
                true
            },
            None => false,
        }
    }

    /// Records the writes reported since the last call, one for each path of
    /// `written`, in order. Paths that are not registered are passed over.
    pub fn update(&mut self, written: &Vec<String>)
        requires
            old(self).wf(),
            forall|p: Seq<char>|
                old(self)@.contains_key(p) ==> #[trigger] old(self)@[p] + written@.len()
                    <= u64::MAX,
        ensures
            final(self).wf(),
            final(self)@ == bumped_all(old(self)@, paths_of(written@)),
    {
        let ghost paths = paths_of(written@);
        let mut i: usize = 0;
        assert(paths.skip(0) =~= paths);
        while i < written.len()
            invariant
                self.wf(),
                i <= written@.len(),
                paths == paths_of(written@),
                bumped_all(self@, paths.skip(i as int)) == bumped_all(old(self)@, paths),
                forall|p: Seq<char>|
                    self@.contains_key(p) ==> #[trigger] self@[p] + (written@.len() - i)
                        <= u64::MAX,
            decreases written@.len() - i,
        {
            let ghost before = self@;
            proof {
                assert(paths.skip(i as int)[0] == written@[i as int]@);
                assert(paths.skip(i as int).skip(1) =~= paths.skip(i as int + 1));
                if before.contains_key(written@[i as int]@) {
                    assert(before[written@[i as int]@] + (written@.len() - i) <= u64::MAX);
                }
            }
            self.note_write(&written[i]);
            proof {
                assert forall|p: Seq<char>| self@.contains_key(p) implies #[trigger] self@[p] + (
                written@.len() - (i + 1)) <= u64::MAX by {
                    assert(before.contains_key(p));
                    assert(before[p] + (written@.len() - i) <= u64::MAX);
                }
            }
            i = i + 1;
        }
        proof {
            assert(paths.skip(i as int).len() == 0);
        }
    }

    /// Whether the resource at `path`, last loaded at `current_version`, is
    /// out of date. When it is, `current_version` takes the registry's
    /// version; otherwise, and for an unregistered path, nothing changes.
    pub fn should_update_resource(&self, path: &String, current_version: &mut u64) -> (stale: bool)
        requires
            self.wf(),
        ensures
            stale == is_stale(self@, path@, *old(current_version)),
            *final(current_version) == (if stale {
                self@[path@]
            } else {
                *old(current_version)
            }),
    {
        match self.version(path) {
            Some(new_version) => {
                if new_version != *current_version {
                    *current_version = new_version;
                    true
                } else {
                    false
                }
            },
            None => false,
        }
    }
}

/// The registry after one write to `path`: a registered path is one version
/// further, an unregistered one changes nothing.
pub open spec fn bumped(versions: Map<Seq<char>, u64>, path: Seq<char>) -> Map<Seq<char>, u64> {
    if versions.contains_key(path) {
        versions.insert(path, (versions[path] + 1) as u64)
    } else {
        versions
    }
}

/// The registry after a write to each of `paths`, in order.
pub open spec fn bumped_all(versions: Map<Seq<char>, u64>, paths: Seq<Seq<char>>) -> Map<
    Seq<char>,
    u64,
>
    decreases paths.len(),
{
    if paths.len() == 0 {
        versions
    } else {
        bumped_all(bumped(versions, paths[0]), paths.skip(1))
    }
}

/// The paths as sequences of characters.
pub open spec fn paths_of(written: Seq<String>) -> Seq<Seq<char>> {
    Seq::new(written.len(), |i: int| written[i]@)
}

/// A resource loaded at version `current` is stale when its path is
/// registered at another version.
pub open spec fn is_stale(versions: Map<Seq<char>, u64>, path: Seq<char>, current: u64) -> bool {
    versions.contains_key(path) && versions[path] != current
}

/// The native objects of a loaded shader, as the graphics layer numbers
/// them.
#[derive(Debug, Clone, Copy, PartialEq, Eq, Structural)]
pub struct ShaderHandles {
    pub program: Option<u32>,
    pub vert: Option<u32>,
    pub frag: Option<u32>,
}

/// A fragment shader with its vertex shader: the two source paths, the
/// native objects while it is loaded, and the version of each source that
/// the load was made from.
pub struct Shader {
    frag_path: String,
    vert_path: String,
    native_frag: Option<u32>,
    native_vert: Option<u32>,
    native_program: Option<u32>,
    frag_version: u64,
    vert_version: u64,
}

impl Shader {
    /// Path of the fragment source.
    pub closed spec fn frag_path(&self) -> Seq<char> {
        self.frag_path@
    }

    /// Path of the vertex source.
    pub closed spec fn vert_path(&self) -> Seq<char> {
        self.vert_path@
    }

    /// The native objects held.
    pub closed spec fn handles(&self) -> ShaderHandles {
        ShaderHandles {
            program: self.native_program,
            vert: self.native_vert,
            frag: self.native_frag,
        }
    }

    /// Version of the fragment source last seen.
    pub closed spec fn frag_version(&self) -> u64 {
        self.frag_version
    }

    /// Version of the vertex source last seen.
    pub closed spec fn vert_version(&self) -> u64 {
        self.vert_version
    }

    /// A shader over the two source files, not yet loaded. Registers the
    /// fragment path, then the vertex path, each at version 0.
    pub fn frag(content: &mut Content, frag_path: String, vert_path: String) -> (s: Shader)
        requires
            old(content).wf(),
        ensures
            final(content).wf(),
            final(content)@ == old(content)@.insert(frag_path@, 0).insert(vert_path@, 0),
            s.frag_path() == frag_path@,
            s.vert_path() == vert_path@,
            s.handles() == (ShaderHandles { program: None, vert: None, frag: None }),
            s.frag_version() == 0,
            s.vert_version() == 0,
    {
        content.register_file(frag_path.clone());
        content.register_file(vert_path.clone());
        Shader {
            frag_path,
            vert_path,
            native_frag: None,
            native_vert: None,
            native_program: None,
            frag_version: 0,
            vert_version: 0,
        }
    }

    /// Takes note of the registry and says how many reloads are due: one
    /// for a changed fragment source and one for a changed vertex source.
    /// The versions seen are remembered, so the same change asks only once.
    pub fn select(&mut self, content: &Content) -> (reloads: u8)
        requires
            content.wf(),
        ensures
            reloads == (if is_stale(content@, old(self).frag_path(), old(self).frag_version()) {
                1int
            } else {
                0int
            }) + (if is_stale(content@, old(self).vert_path(), old(self).vert_version()) {
                1int
            } else {
                0int
            }),
            final(self).frag_path() == old(self).frag_path(),
            final(self).vert_path() == old(self).vert_path(),
            final(self).handles() == old(self).handles(),
            final(self).frag_version() == (if content@.contains_key(old(self).frag_path()) {
                content@[old(self).frag_path()]
            } else {
                old(self).frag_version()
            }),
            final(self).vert_version() == (if content@.contains_key(old(self).vert_path()) {
                content@[old(self).vert_path()]
            } else {
                old(self).vert_version()
            }),
    {
        let mut reloads: u8 = 0;
        let mut seen = self.frag_version;
        if content.should_update_resource(&self.frag_path, &mut seen) {
            reloads = reloads + 1;
        }
        self.frag_version = seen;
        let mut seen = self.vert_version;
        if content.should_update_resource(&self.vert_path, &mut seen) {
            reloads = reloads + 1;
        }
        self.vert_version = seen;
        reloads
    }

    /// Forgets the native objects and hands them out to be freed.
    pub fn unload(&mut self) -> (freed: ShaderHandles)
        ensures
            freed == old(self).handles(),
            final(self).handles() == (ShaderHandles { program: None, vert: None, frag: None }),
            final(self).frag_path() == old(self).frag_path(),
            final(self).vert_path() == old(self).vert_path(),
            final(self).frag_version() == old(self).frag_version(),
            final(self).vert_version() == old(self).vert_version(),
    {
        let freed = ShaderHandles {
            program: self.native_program,
            vert: self.native_vert,
            frag: self.native_frag,
        };
        self.native_program = None;
        self.native_vert = None;
        self.native_frag = None;
        freed
    }

    /// Records a finished load: the three native objects are now current.
    pub fn load(&mut self, program: u32, vert: u32, frag: u32)
        ensures
            final(self).handles() == (ShaderHandles {
                program: Some(program),
                vert: Some(vert),
                frag: Some(frag),
            }),
            final(self).frag_path() == old(self).frag_path(),
            final(self).vert_path() == old(self).vert_path(),
            final(self).frag_version() == old(self).frag_version(),
            final(self).vert_version() == old(self).vert_version(),
    {
        self.native_program = Some(program);
        self.native_vert = Some(vert);
        self.native_frag = Some(frag);
    }

    /// The program to draw with, if one is loaded.
    pub fn program(&self) -> (p: Option<u32>)
        ensures
            p == self.handles().program,
    {
        self.native_program
    }
}

/// A texture: its source path, the native object while it is loaded, and
/// the version of the source that the load was made from.
pub struct Texture {
    path: String,
    native: Option<u32>,
    current_version: u64,
}

impl Texture {
    /// Path of the image file.
    pub closed spec fn path(&self) -> Seq<char> {
        self.path@
    }

    /// The native object held.
    pub closed spec fn handle(&self) -> Option<u32> {
        self.native
    }

    /// Version of the image last seen.
    pub closed spec fn current_version(&self) -> u64 {
        self.current_version
    }

    /// A texture over the image at `path`, not yet loaded. Registers the
    /// path at version 0.
    pub fn new(content: &mut Content, path: String) -> (t: Texture)
        requires
            old(content).wf(),
        ensures
            final(content).wf(),
            final(content)@ == old(content)@.insert(path@, 0),
            t.path() == path@,
            t.handle() == None::<u32>,
            t.current_version() == 0,
    {
        content.register_file(path.clone());
        Texture { path, native: None, current_version: 0 }
    }

    /// Takes note of the registry and says whether a reload is due. The
    /// version seen is remembered, so the same change asks only once.
    pub fn select(&mut self, content: &Content) -> (reload: bool)
        requires
            content.wf(),
        ensures
            reload == is_stale(content@, old(self).path(), old(self).current_version()),
            final(self).path() == old(self).path(),
            final(self).handle() == old(self).handle(),
            final(self).current_version() == (if content@.contains_key(old(self).path()) {
                content@[old(self).path()]
            } else {
                old(self).current_version()
            }),
    {
        let mut seen = self.current_version;
        let reload = content.should_update_resource(&self.path, &mut seen);
        self.current_version = seen;
        reload
    }

    /// Forgets the native object and hands it out to be freed.
    pub fn delete_texture(&mut self) -> (freed: Option<u32>)
        ensures
            freed == old(self).handle(),
            final(self).handle() == None::<u32>,
            final(self).path() == old(self).path(),
            final(self).current_version() == old(self).current_version(),
    {
        let freed = self.native;
        self.native = None;
        freed
    }

    /// Records a finished load: `native` is now current.
    pub fn load(&mut self, native: u32)
        ensures
            final(self).handle() == Some(native),
            final(self).path() == old(self).path(),
            final(self).current_version() == old(self).current_version(),
    {
        self.native = Some(native);
    }

    /// The native object to bind, if one is loaded.
    pub fn native(&self) -> (n: Option<u32>)
        ensures
            n == self.handle(),
    {
        self.native
    }
}

/// One corner of a quad: a position in position units and a texture
/// coordinate, each of `u` and `v` being 0 or 1.
#[derive(Debug, Clone, Copy, PartialEq, Eq, Structural)]
pub struct Vertex {
    pub x: i64,
    pub y: i64,
    pub u: u8,
    pub v: u8,
}

/// Turns rectangles into the corners that the drawing layer submits.
pub struct Renderer {}

/// The corners of the rectangle at (`x`, `y`) of size `w` by `h`, clockwise
/// from the top left, the texture stretched over it once.
pub open spec fn quad_of(x: int, y: int, w: int, h: int) -> Seq<(int, int, int, int)> {
    seq![(x, y, 0, 0), (x + w, y, 1, 0), (x + w, y + h, 1, 1), (x, y + h, 0, 1)]
}

/// A corner as four mathematical integers.
pub open spec fn corner(v: Vertex) -> (int, int, int, int) {
    (v.x as int, v.y as int, v.u as int, v.v as int)
}

impl Renderer {
    /// A renderer.
    pub fn new() -> Renderer {
        Renderer {  }
    }

    /// The four corners of `rect`, clockwise from the top left.
    pub fn rect(&self, rect: &Rect) -> (quad: [Vertex; 4])
        requires
            i64::MIN <= rect@.right() <= i64::MAX,
            i64::MIN <= rect@.bottom() <= i64::MAX,
        ensures
            quad@.map_values(|v: Vertex| corner(v)) == quad_of(
                rect@.x,
                rect@.y,
                rect@.width,
                rect@.height,
            ),
    {
        self.rect2(rect.x, rect.y, rect.width, rect.height)
    }

    /// The four corners of the rectangle at (`x`, `y`) of size `w` by `h`,
    /// clockwise from the top left.
    pub fn rect2(&self, x: i64, y: i64, w: i64, h: i64) -> (quad: [Vertex; 4])
        requires
            i64::MIN <= x + w <= i64::MAX,
            i64::MIN <= y + h <= i64::MAX,
        ensures
            quad@.map_values(|v: Vertex| corner(v)) == quad_of(
                x as int,
                y as int,
                w as int,
                h as int,
            ),
    {
        let quad = [
            Vertex { x, y, u: 0, v: 0 },
            Vertex { x: x + w, y, u: 1, v: 0 },
            Vertex { x: x + w, y: y + h, u: 1, v: 1 },
            Vertex { x, y: y + h, u: 0, v: 1 },
        ];
        assert(quad@.map_values(|v: Vertex| corner(v)) =~= quad_of(
            x as int,
            y as int,
            w as int,
            h as int,
        ));
        quad
    }
}

} // verus!
