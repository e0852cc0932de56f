//! Asset handles and the tables that resolve them.
//!
//! An asset is named by the path it was loaded from and addressed by a handle,
//! a 32-bit index. A table hands out indices in ascending order starting at 0
//! and keeps, for every name it has seen, the handle that was given to it.

use std::collections::HashMap;
use vstd::hash_map::StringHashMap;
use vstd::prelude::*;
use vstd::std_specs::hash::*;
use vstd::std_specs::iter::IteratorSpec;
use vstd::string::*;

use crate::kb_resource::KbTexture;

verus! {

broadcast use vstd::std_specs::hash::group_hash_axioms;

/// The index that no asset ever has.
pub const INVALID_HANDLE_INDEX: u32 = 0xffff_ffff;

/// The index that a table whose counter stands at `next` hands out next: the
/// counter itself, or 0 when the counter stands at the invalid index, as it
/// does in a fresh table.
pub open spec fn index_after(next: u32) -> u32 {
    if next == INVALID_HANDLE_INDEX {
        0
    } else {
        next
    }
}

/// The last index that a table can hold, one below the invalid index. A table
/// never hands it out: the counter would then stand at the invalid index as in
/// a fresh table, and the indices would start again at 0 over what is stored.
pub const LAST_HANDLE_INDEX: u32 = 0xffff_fffe;

/// Handle of a texture.
#[derive(Clone, Copy, Debug, PartialEq, Eq, Structural, Hash)]
pub struct KbTextureHandle {
    pub index: u32,
}

/// Handle of a shader module.
#[derive(Clone, Copy, Debug, PartialEq, Eq, Structural, Hash)]
pub struct KbShaderHandle {
    pub index: u32,
}

/// Handle of a file held as bytes.
#[derive(Clone, Copy, Debug, PartialEq, Eq, Structural, Hash)]
pub struct KbByteFileHandle {
    pub index: u32,
}

/// Handle of a model.
#[derive(Clone, Copy, Debug, PartialEq, Eq, Structural, Hash)]
pub struct KbModelHandle {
    pub index: u32,
}

impl KbTextureHandle {
    pub open spec fn valid(&self) -> bool {
        self.index != INVALID_HANDLE_INDEX
    }

    pub fn make_invalid() -> (r: Self)
        ensures
            r.index == INVALID_HANDLE_INDEX,
            !r.valid(),
    {
        KbTextureHandle { index: INVALID_HANDLE_INDEX }
    }

    pub fn is_valid(&self) -> (r: bool)
        ensures
            r == self.valid(),
    {
        self.index != INVALID_HANDLE_INDEX
    }
}

impl KbShaderHandle {
    pub open spec fn valid(&self) -> bool {
        self.index != INVALID_HANDLE_INDEX
    }

    pub fn make_invalid() -> (r: Self)
        ensures
            r.index == INVALID_HANDLE_INDEX,
            !r.valid(),
    {
        KbShaderHandle { index: INVALID_HANDLE_INDEX }
    }

    pub fn is_valid(&self) -> (r: bool)
        ensures
            r == self.valid(),
    {
        self.index != INVALID_HANDLE_INDEX
    }
}

impl KbByteFileHandle {
    pub open spec fn valid(&self) -> bool {
        self.index != INVALID_HANDLE_INDEX
    }

    pub fn make_invalid() -> (r: Self)
        ensures
            r.index == INVALID_HANDLE_INDEX,
            !r.valid(),
    {
        KbByteFileHandle { index: INVALID_HANDLE_INDEX }
    }

    pub fn is_valid(&self) -> (r: bool)
        ensures
            r == self.valid(),
    {
        self.index != INVALID_HANDLE_INDEX
    }
}

impl KbModelHandle {
    pub open spec fn valid(&self) -> bool {
        self.index != INVALID_HANDLE_INDEX
    }

    pub fn make_invalid() -> (r: Self)
        ensures
            r.index == INVALID_HANDLE_INDEX,
            !r.valid(),
    {
        KbModelHandle { index: INVALID_HANDLE_INDEX }
    }

    pub fn is_valid(&self) -> (r: bool)
        ensures
            r == self.valid(),
    {
        self.index != INVALID_HANDLE_INDEX
    }
}

/// The handle that an actor without a model carries.
pub fn invalid_model_handle() -> (r: KbModelHandle)
    ensures
        r.index == INVALID_HANDLE_INDEX,
{
    KbModelHandle::make_invalid()
}

/// A table of assets of one kind: the handle of each name, the asset of each
/// handle, and the counter that the next handle comes from.
pub struct KbAssetMappings<A> {
    names_to_handles: StringHashMap<u32>,
    handles_to_assets: HashMap<u32, A>,
    next_handle: u32,
}

impl<A> KbAssetMappings<A> {
    /// The handle index recorded for each name.
    pub closed spec fn names(&self) -> Map<Seq<char>, u32> {
        self.names_to_handles@
    }

    /// The asset stored under each handle index.
    pub closed spec fn assets(&self) -> Map<u32, A> {
        self.handles_to_assets@
    }

    /// The counter. See [`index_after`].
    pub closed spec fn counter(&self) -> u32 {
        self.next_handle
    }

    /// Every name leads to a stored asset, and every stored asset has an
    /// index that was handed out: it is below the counter, and a table whose
    /// counter stands at the invalid index is empty.
    pub open spec fn wf(&self) -> bool {
        &&& self.assets().dom().finite()
        &&& !self.assets().contains_key(INVALID_HANDLE_INDEX)
        &&& forall|name: Seq<char>| #[trigger]
            self.names().contains_key(name) ==> self.assets().contains_key(self.names()[name])
        &&& forall|index: u32| #[trigger]
            self.assets().contains_key(index) ==> self.counter() != INVALID_HANDLE_INDEX && index
                < self.counter()
    }

    /// True when the table can hand out another index: the next one is not
    /// the last index.
    pub open spec fn has_room(&self) -> bool {
        index_after(self.counter()) < LAST_HANDLE_INDEX
    }

    /// Decides [`KbAssetMappings::has_room`].
    pub fn can_add(&self) -> (r: bool)
        ensures
            r == self.has_room(),
    {
        self.next_handle == INVALID_HANDLE_INDEX || self.next_handle < LAST_HANDLE_INDEX
    }

    pub fn new() -> (r: Self)
        ensures
            r.wf(),
            r.names() == Map::<Seq<char>, u32>::empty(),
            r.assets() == Map::<u32, A>::empty(),
            r.counter() == INVALID_HANDLE_INDEX,
    {
        KbAssetMappings {
            names_to_handles: StringHashMap::new(),
            handles_to_assets: HashMap::new(),
            next_handle: INVALID_HANDLE_INDEX,
        }
    }

    /// The handle index recorded for `name`, if the name was seen before.
    pub fn find(&self, name: &str) -> (r: Option<u32>)
        ensures
            r == (if self.names().contains_key(name@) {
                Some(self.names()[name@])
            } else {
                None
            }),
    {
        match self.names_to_handles.get(name) {
            Some(index) => Some(*index),
            None => None,
        }
    }

    /// Takes the next handle index from the counter. The table has room.
    pub fn take_index(&mut self) -> (r: u32)
        requires
            old(self).has_room(),
        ensures
            r == index_after(old(self).counter()),
            r < LAST_HANDLE_INDEX,
            final(self).counter() == r + 1,
            final(self).names() == old(self).names(),
            final(self).assets() == old(self).assets(),
            old(self).wf() ==> final(self).wf() && !old(self).assets().contains_key(r),
    {
        if self.next_handle == INVALID_HANDLE_INDEX {
            self.next_handle = 0;
        }
        let index = self.next_handle;
        self.next_handle = self.next_handle + 1;
        proof {
            if old(self).wf() {
                assert(!old(self).assets().contains_key(index));
                assert forall|i: u32| #[trigger] self.assets().contains_key(i) implies self.counter()
                    != INVALID_HANDLE_INDEX && i < self.counter() by {
                    assert(old(self).assets().contains_key(i));
                }
                assert forall|n: Seq<char>| #[trigger]
                    self.names().contains_key(n) implies self.assets().contains_key(
                    self.names()[n],
                ) by {
                    assert(old(self).names().contains_key(n));
                }
            }
        }
        index
    }

    /// Stores `asset` under a fresh handle index, one under which nothing was
    /// stored. The table has room.
    pub fn add(&mut self, asset: A) -> (r: u32)
        requires
            old(self).wf(),
            old(self).has_room(),
        ensures
            final(self).wf(),
            r == index_after(old(self).counter()),
            r < LAST_HANDLE_INDEX,
            !old(self).assets().contains_key(r),
            final(self).counter() == r + 1,
            final(self).names() == old(self).names(),
            final(self).assets() == old(self).assets().insert(r, asset),
            final(self).assets().len() == old(self).assets().len() + 1,
    {
        let index = self.take_index();
        self.handles_to_assets.insert(index, asset);
        assert(self.assets().dom() =~= old(self).assets().dom().insert(index));
        index
    }

    /// Stores `asset` under a fresh handle index, one under which nothing was
    /// stored, and records the index for `name`. The table has room.
    pub fn add_named(&mut self, name: &str, asset: A) -> (r: u32)
        requires
            old(self).wf(),
            old(self).has_room(),
        ensures
            final(self).wf(),
            r == index_after(old(self).counter()),
            r < LAST_HANDLE_INDEX,
            !old(self).assets().contains_key(r),
            final(self).counter() == r + 1,
            final(self).names() == old(self).names().insert(name@, r),
            final(self).assets() == old(self).assets().insert(r, asset),
    {
        let index = self.take_index();
        self.handles_to_assets.insert(index, asset);
        self.names_to_handles.insert(String::from_str(name), index);
        assert forall|n: Seq<char>| #[trigger]
            self.names().contains_key(n) implies self.assets().contains_key(self.names()[n]) by {
            if n != name@ {
                assert(old(self).names().contains_key(n));
            }
        }
        index
    }

    /// True when an asset is stored under `index`.
    pub fn contains(&self, index: u32) -> (r: bool)
        ensures
            r == self.assets().contains_key(index),
    {
        self.handles_to_assets.contains_key(&index)
    }

    /// The asset stored under `index`, if there is one.
    pub fn get(&self, index: u32) -> (r: Option<&A>)
        ensures
            r == (if self.assets().contains_key(index) {
                Some(&self.assets()[index])
            } else {
                None
            }),
    {
        self.handles_to_assets.get(&index)
    }

    /// Replaces the asset stored under `index`.
    pub fn replace(&mut self, index: u32, asset: A)
        requires
            old(self).wf(),
            old(self).assets().contains_key(index),
        ensures
            final(self).wf(),
            final(self).counter() == old(self).counter(),
            final(self).names() == old(self).names(),
            final(self).assets() == old(self).assets().insert(index, asset),
    {
        self.handles_to_assets.insert(index, asset);
        assert forall|n: Seq<char>| #[trigger]
            self.names().contains_key(n) implies self.assets().contains_key(self.names()[n]) by {
            assert(old(self).names().contains_key(n));
        }
    }

    /// The handle indices under which an asset is stored, each once, in no
    /// particular order.
    pub fn indices(&self) -> (r: Vec<u32>)
        ensures
            r@.no_duplicates(),
            r@.to_set() == self.assets().dom(),
            r@.len() == self.assets().len(),
    {
        let mut out: Vec<u32> = Vec::new();
        let keys = self.handles_to_assets.keys();
        for key in it: keys
            invariant
                out@ == it.seq().unref().take(it.index() as int),
        {
            out.push(*key);
        }
        proof {
            let all = spec_keys_iter(&self.handles_to_assets).remaining().unref();
            assert(out@ =~= all);
            assert(all.to_set() == self.handles_to_assets@.dom());
        }
        out
    }

    /// Forgets the asset stored under `index`, if there is one. No name leads
    /// to that index.
    pub fn remove(&mut self, index: u32)
        requires
            old(self).wf(),
            forall|name: Seq<char>| #[trigger]
                old(self).names().contains_key(name) ==> old(self).names()[name] != index,
        ensures
            final(self).wf(),
            final(self).counter() == old(self).counter(),
            final(self).names() == old(self).names(),
            final(self).assets() == old(self).assets().remove(index),
    {
        self.handles_to_assets.remove(&index);
        assert forall|n: Seq<char>| #[trigger]
            self.names().contains_key(n) implies self.assets().contains_key(self.names()[n]) by {
            assert(old(self).names().contains_key(n));
        }
    }

    /// The number of stored assets.
    pub fn len(&self) -> (r: usize)
        ensures
            r == self.assets().len(),
    {
        self.handles_to_assets.len()
    }
}

/// True when `needle` occurs in `haystack` as a run of consecutive characters.
pub open spec fn has_infix(haystack: Seq<char>, needle: Seq<char>) -> bool {
    exists|i: int|
        0 <= i && i + needle.len() <= haystack.len() && #[trigger] haystack.subrange(
            i,
            i + needle.len(),
        ) == needle
}

/// `str::contains` with a string pattern: true exactly when the pattern occurs
/// somewhere in the string.
#[verifier::external_body]
fn str_contains(haystack: &str, needle: &str) -> (r: bool)
    ensures
        r == has_infix(haystack@, needle@),
{
    haystack.contains(needle)
}

/// True when the second character of the path is a colon, as in `C:\...`.
pub open spec fn has_drive_letter(file_path: Seq<char>) -> bool {
    file_path.len() >= 2 && file_path[1] == ':'
}

/// The file that a load of `file_path` reads.
///
/// A path with a drive letter is taken as it is. A path that mentions
/// `engine_assets` is looked for under the working directory `cwd`, or two
/// levels above it when the root of the file system has no `engine_assets`
/// directory. With `game_assets_too`, a path that mentions `game_assets` is
/// looked for under the working directory. Any other path is taken as it is.
pub open spec fn resolved_path(
    file_path: Seq<char>,
    cwd: Seq<char>,
    engine_assets_at_root: bool,
    game_assets_too: bool,
) -> Seq<char> {
    if has_drive_letter(file_path) {
        file_path
    } else if has_infix(file_path, "engine_assets"@) {
        if engine_assets_at_root {
            cwd + "/./"@ + file_path
        } else {
            cwd + "/../../"@ + file_path
        }
    } else if game_assets_too && has_infix(file_path, "game_assets"@) {
        cwd + "/./"@ + file_path
    } else {
        file_path
    }
}

/// Computes [`resolved_path`]. The path has at least two characters.
pub fn resolve_path(
    file_path: &str,
    cwd: &str,
    engine_assets_at_root: bool,
    game_assets_too: bool,
) -> (r: String)
    requires
        file_path@.len() >= 2,
    ensures
        r@ == resolved_path(file_path@, cwd@, engine_assets_at_root, game_assets_too),
{
    if file_path.get_char(1) == ':' {
        String::from_str(file_path)
    } else if str_contains(file_path, "engine_assets") {
        if engine_assets_at_root {
            String::from_str(cwd).concat("/./").concat(file_path)
        } else {
            String::from_str(cwd).concat("/../../").concat(file_path)
        }
    } else if game_assets_too && str_contains(file_path, "game_assets") {
        String::from_str(cwd).concat("/./").concat(file_path)
    } else {
        String::from_str(file_path)
    }
}

/// What a caller has to do before an asset can be handed over: nothing, when
/// the name is known, or read the file at the given path.
pub enum KbLoadRequest {
    Loaded(u32),
    Read(String),
}

impl<A> KbAssetMappings<A> {
    /// What a load of `file_path` would find: the handle index recorded for
    /// the name, or the index that a new asset would get.
    pub open spec fn index_for(&self, file_path: Seq<char>) -> u32 {
        if self.names().contains_key(file_path) {
            self.names()[file_path]
        } else {
            index_after(self.counter())
        }
    }

    /// Decides how a load of `file_path` starts. A name that is not known yet
    /// has at least two characters.
    pub fn load_request(
        &self,
        file_path: &str,
        cwd: &str,
        engine_assets_at_root: bool,
        game_assets_too: bool,
    ) -> (r: KbLoadRequest)
        requires
            self.names().contains_key(file_path@) || file_path@.len() >= 2,
        ensures
            self.names().contains_key(file_path@) ==> r == KbLoadRequest::Loaded(
                self.names()[file_path@],
            ),
            !self.names().contains_key(file_path@) ==> (r matches KbLoadRequest::Read(path) && path@ == resolved_path(file_path@, cwd@, engine_assets_at_root, game_assets_too)),
    {
        match self.find(file_path) {
            Some(index) => KbLoadRequest::Loaded(index),
            None => KbLoadRequest::Read(
                resolve_path(file_path, cwd, engine_assets_at_root, game_assets_too),
            ),
        }
    }

    /// Finishes a load: a known name keeps its handle and its asset, no
    /// handle is used up, and `asset` is dropped; a new name gets a fresh
    /// handle, under which `asset` is stored. For a new name the table has
    /// room.
    pub fn load(&mut self, file_path: &str, asset: A) -> (r: u32)
        requires
            old(self).wf(),
            old(self).names().contains_key(file_path@) || old(self).has_room(),
        ensures
            final(self).wf(),
            r == old(self).index_for(file_path@),
            final(self).names().contains_key(file_path@),
            final(self).names()[file_path@] == r,
            final(self).assets().contains_key(r),
            old(self).names().contains_key(file_path@) ==> {
                &&& final(self).names() == old(self).names()
                &&& final(self).assets() == old(self).assets()
                &&& final(self).counter() == old(self).counter()
            },
            !old(self).names().contains_key(file_path@) ==> {
                &&& !old(self).assets().contains_key(r)
                &&& final(self).names() == old(self).names().insert(file_path@, r)
                &&& final(self).assets() == old(self).assets().insert(r, asset)
                &&& final(self).counter() == r + 1
            },
    {
        match self.find(file_path) {
            Some(index) => index,
            None => self.add_named(file_path, asset),
        }
    }
}

/// The textures, shaders and byte files that the engine has loaded.
pub struct KbAssetManager {
    texture_mappings: KbAssetMappings<KbTexture>,
    shader_mappings: KbAssetMappings<wgpu::ShaderModule>,
    byte_mappings: KbAssetMappings<Vec<u8>>,
}

impl KbAssetManager {
    /// The table of textures.
    pub closed spec fn textures(&self) -> KbAssetMappings<KbTexture> {
        self.texture_mappings
    }

    /// The table of shaders.
    pub closed spec fn shaders(&self) -> KbAssetMappings<wgpu::ShaderModule> {
        self.shader_mappings
    }

    /// The table of byte files.
    pub closed spec fn byte_files(&self) -> KbAssetMappings<Vec<u8>> {
        self.byte_mappings
    }

    /// All three tables are well formed.
    pub open spec fn wf(&self) -> bool {
        self.textures().wf() && self.shaders().wf() && self.byte_files().wf()
    }

    /// True when `file_path` can be had from `table`: it was loaded, or it is
    /// a new name of at least two characters, the place of a drive letter
    /// among them, and the table has room for it.
    pub open spec fn loadable<A>(table: KbAssetMappings<A>, file_path: Seq<char>) -> bool {
        table.names().contains_key(file_path) || (file_path.len() >= 2 && table.has_room())
    }

    /// True when the texture `file_path` can be loaded.
    pub open spec fn can_load_texture(&self, file_path: Seq<char>) -> bool {
        Self::loadable(self.textures(), file_path)
    }

    /// True when the shader `file_path` can be loaded.
    pub open spec fn can_load_shader(&self, file_path: Seq<char>) -> bool {
        Self::loadable(self.shaders(), file_path)
    }

    /// True when the byte file `file_path` can be loaded.
    pub open spec fn can_load_byte_file(&self, file_path: Seq<char>) -> bool {
        Self::loadable(self.byte_files(), file_path)
    }

    /// Decides [`KbAssetManager::can_load_texture`].
    pub fn texture_is_loadable(&self, file_path: &str) -> (r: bool)
        ensures
            r == self.can_load_texture(file_path@),
    {
        self.texture_mappings.find(file_path).is_some() || (file_path.unicode_len() >= 2
            && self.texture_mappings.can_add())
    }

    /// Decides [`KbAssetManager::can_load_shader`].
    pub fn shader_is_loadable(&self, file_path: &str) -> (r: bool)
        ensures
            r == self.can_load_shader(file_path@),
    {
        self.shader_mappings.find(file_path).is_some() || (file_path.unicode_len() >= 2
            && self.shader_mappings.can_add())
    }

    /// Decides [`KbAssetManager::can_load_byte_file`].
    pub fn byte_file_is_loadable(&self, file_path: &str) -> (r: bool)
        ensures
            r == self.can_load_byte_file(file_path@),
    {
        self.byte_mappings.find(file_path).is_some() || (file_path.unicode_len() >= 2
            && self.byte_mappings.can_add())
    }

    pub fn new() -> (r: Self)
        ensures
            r.wf(),
            r.textures().names() == Map::<Seq<char>, u32>::empty(),
            r.textures().assets() == Map::<u32, KbTexture>::empty(),
            r.textures().counter() == INVALID_HANDLE_INDEX,
            r.shaders().names() == Map::<Seq<char>, u32>::empty(),
            r.shaders().assets() == Map::<u32, wgpu::ShaderModule>::empty(),
            r.shaders().counter() == INVALID_HANDLE_INDEX,
            r.byte_files().names() == Map::<Seq<char>, u32>::empty(),
            r.byte_files().assets() == Map::<u32, Vec<u8>>::empty(),
            r.byte_files().counter() == INVALID_HANDLE_INDEX,
    {
        KbAssetManager {
            texture_mappings: KbAssetMappings::new(),
            shader_mappings: KbAssetMappings::new(),
            byte_mappings: KbAssetMappings::new(),
        }
    }

    /// The handle of the texture that was loaded as `file_path`, if any.
    pub fn find_texture(&self, file_path: &str) -> (r: Option<KbTextureHandle>)
        ensures
            r == (if self.textures().names().contains_key(file_path@) {
                Some(KbTextureHandle { index: self.textures().names()[file_path@] })
            } else {
                None
            }),
    {
        match self.texture_mappings.find(file_path) {
            Some(index) => Some(KbTextureHandle { index }),
            None => None,
        }
    }

    /// True when a texture is stored under `texture_handle`.
    pub fn has_texture(&self, texture_handle: &KbTextureHandle) -> (r: bool)
        ensures
            r == self.textures().assets().contains_key(texture_handle.index),
    {
        self.texture_mappings.contains(texture_handle.index)
    }

    /// How a load of the texture `file_path` starts. Textures are also looked
    /// for among the game's own assets.
    pub fn texture_request(&self, file_path: &str, cwd: &str, engine_assets_at_root: bool) -> (r:
        KbLoadRequest)
        requires
            self.textures().names().contains_key(file_path@) || file_path@.len() >= 2,
        ensures
            self.textures().names().contains_key(file_path@) ==> r == KbLoadRequest::Loaded(
                self.textures().names()[file_path@],
            ),
            !self.textures().names().contains_key(file_path@) ==> (r matches KbLoadRequest::Read(path) && path@ == resolved_path(file_path@, cwd@, engine_assets_at_root, true)),
    {
        self.texture_mappings.load_request(file_path, cwd, engine_assets_at_root, true)
    }

    /// Hands over the texture read for `file_path` and returns its handle; see
    /// [`KbAssetMappings::load`]. The texture can be loaded; see
    /// [`KbAssetManager::can_load_texture`].
    pub fn load_texture(&mut self, file_path: &str, texture: KbTexture) -> (r: KbTextureHandle)
        requires
            old(self).wf(),
            old(self).can_load_texture(file_path@),
        ensures
            final(self).wf(),
            final(self).textures().counter() == (if old(self).textures().names().contains_key(file_path@) {
                old(self).textures().counter() as int
            } else {
                r.index + 1
            }),
            !old(self).textures().names().contains_key(file_path@) ==> !old(
                self,
            ).textures().assets().contains_key(r.index),
            r.index == old(self).textures().index_for(file_path@),
            r.valid(),
            final(self).textures().names() == old(self).textures().names().insert(
                file_path@,
                r.index,
            ),
            final(self).textures().assets() == (if old(self).textures().names().contains_key(
                file_path@,
            ) {
                old(self).textures().assets()
            } else {
                old(self).textures().assets().insert(r.index, texture)
            }),
            final(self).shaders() == old(self).shaders(),
            final(self).byte_files() == old(self).byte_files(),
    {
        let index = self.texture_mappings.load(file_path, texture);
        assert(self.texture_mappings.names() =~= old(self).texture_mappings.names().insert(
            file_path@,
            index,
        ));
        KbTextureHandle { index }
    }

    /// The texture behind a handle that a load returned.
    pub fn get_texture(&self, texture_handle: &KbTextureHandle) -> (r: &KbTexture)
        requires
            self.textures().assets().contains_key(texture_handle.index),
        ensures
            *r == self.textures().assets()[texture_handle.index],
    {
        self.texture_mappings.get(texture_handle.index).unwrap()
    }

    /// The handle of the shader that was loaded as `file_path`, if any.
    pub fn find_shader(&self, file_path: &str) -> (r: Option<KbShaderHandle>)
        ensures
            r == (if self.shaders().names().contains_key(file_path@) {
                Some(KbShaderHandle { index: self.shaders().names()[file_path@] })
            } else {
                None
            }),
    {
        match self.shader_mappings.find(file_path) {
            Some(index) => Some(KbShaderHandle { index }),
            None => None,
        }
    }

    /// True when a shader is stored under `shader_handle`.
    pub fn has_shader(&self, shader_handle: &KbShaderHandle) -> (r: bool)
        ensures
            r == self.shaders().assets().contains_key(shader_handle.index),
    {
        self.shader_mappings.contains(shader_handle.index)
    }

    /// How a load of the shader `file_path` starts.
    pub fn shader_request(&self, file_path: &str, cwd: &str, engine_assets_at_root: bool) -> (r:
        KbLoadRequest)
        requires
            self.shaders().names().contains_key(file_path@) || file_path@.len() >= 2,
        ensures
            self.shaders().names().contains_key(file_path@) ==> r == KbLoadRequest::Loaded(
                self.shaders().names()[file_path@],
            ),
            !self.shaders().names().contains_key(file_path@) ==> (r matches KbLoadRequest::Read(path) && path@ == resolved_path(file_path@, cwd@, engine_assets_at_root, false)),
    {
        self.shader_mappings.load_request(file_path, cwd, engine_assets_at_root, false)
    }

    /// Hands over the shader compiled for `file_path` and returns its handle;
    /// see [`KbAssetMappings::load`]. The shader can be loaded; see
    /// [`KbAssetManager::can_load_shader`].
    pub fn load_shader(&mut self, file_path: &str, shader: wgpu::ShaderModule) -> (r:
        KbShaderHandle)
        requires
            old(self).wf(),
            old(self).can_load_shader(file_path@),
        ensures
            final(self).wf(),
            final(self).shaders().counter() == (if old(self).shaders().names().contains_key(file_path@) {
                old(self).shaders().counter() as int
            } else {
                r.index + 1
            }),
            !old(self).shaders().names().contains_key(file_path@) ==> !old(
                self,
            ).shaders().assets().contains_key(r.index),
            r.index == old(self).shaders().index_for(file_path@),
            r.valid(),
            final(self).shaders().names() == old(self).shaders().names().insert(
                file_path@,
                r.index,
            ),
            final(self).shaders().assets() == (if old(self).shaders().names().contains_key(
                file_path@,
            ) {
                old(self).shaders().assets()
            } else {
                old(self).shaders().assets().insert(r.index, shader)
            }),
            final(self).textures() == old(self).textures(),
            final(self).byte_files() == old(self).byte_files(),
    {
        let index = self.shader_mappings.load(file_path, shader);
        assert(self.shader_mappings.names() =~= old(self).shader_mappings.names().insert(
            file_path@,
            index,
        ));
        KbShaderHandle { index }
    }

    /// The shader behind a handle that a load returned.
    pub fn get_shader(&self, shader_handle: &KbShaderHandle) -> (r: &wgpu::ShaderModule)
        requires
            self.shaders().assets().contains_key(shader_handle.index),
        ensures
            *r == self.shaders().assets()[shader_handle.index],
    {
        self.shader_mappings.get(shader_handle.index).unwrap()
    }

    /// The handle of the byte file that was loaded as `file_path`, if any.
    pub fn find_byte_file(&self, file_path: &str) -> (r: Option<KbByteFileHandle>)
        ensures
            r == (if self.byte_files().names().contains_key(file_path@) {
                Some(KbByteFileHandle { index: self.byte_files().names()[file_path@] })
            } else {
                None
            }),
    {
        match self.byte_mappings.find(file_path) {
            Some(index) => Some(KbByteFileHandle { index }),
            None => None,
        }
    }

    /// True when bytes are stored under `byte_file_handle`.
    pub fn has_byte_file(&self, byte_file_handle: &KbByteFileHandle) -> (r: bool)
        ensures
            r == self.byte_files().assets().contains_key(byte_file_handle.index),
    {
        self.byte_mappings.contains(byte_file_handle.index)
    }

    /// How a load of the byte file `file_path` starts.
    pub fn byte_file_request(&self, file_path: &str, cwd: &str, engine_assets_at_root: bool) -> (r:
        KbLoadRequest)
        requires
            self.byte_files().names().contains_key(file_path@) || file_path@.len() >= 2,
        ensures
            self.byte_files().names().contains_key(file_path@) ==> r == KbLoadRequest::Loaded(
                self.byte_files().names()[file_path@],
            ),
            !self.byte_files().names().contains_key(file_path@) ==> (r matches KbLoadRequest::Read(path) && path@ == resolved_path(file_path@, cwd@, engine_assets_at_root, false)),
    {
        self.byte_mappings.load_request(file_path, cwd, engine_assets_at_root, false)
    }

    /// Hands over the bytes read for `file_path` and returns their handle; see
    /// [`KbAssetMappings::load`]. The file can be loaded; see
    /// [`KbAssetManager::can_load_byte_file`].
    pub fn load_byte_file(&mut self, file_path: &str, bytes: Vec<u8>) -> (r: KbByteFileHandle)
        requires
            old(self).wf(),
            old(self).can_load_byte_file(file_path@),
        ensures
            final(self).wf(),
            final(self).byte_files().counter() == (if old(self).byte_files().names().contains_key(file_path@) {
                old(self).byte_files().counter() as int
            } else {
                r.index + 1
            }),
            !old(self).byte_files().names().contains_key(file_path@) ==> !old(
                self,
            ).byte_files().assets().contains_key(r.index),
            r.index == old(self).byte_files().index_for(file_path@),
            r.valid(),
            final(self).byte_files().names() == old(self).byte_files().names().insert(
                file_path@,
                r.index,
            ),
            final(self).byte_files().assets() == (if old(self).byte_files().names().contains_key(
                file_path@,
            ) {
                old(self).byte_files().assets()
            } else {
                old(self).byte_files().assets().insert(r.index, bytes)
            }),
            final(self).textures() == old(self).textures(),
            final(self).shaders() == old(self).shaders(),
    {
        let index = self.byte_mappings.load(file_path, bytes);
        assert(self.byte_mappings.names() =~= old(self).byte_mappings.names().insert(
            file_path@,
            index,
        ));
        KbByteFileHandle { index }
    }

    /// The bytes behind a handle that a load returned.
    pub fn get_byte_file(&self, byte_file_handle: &KbByteFileHandle) -> (r: &Vec<u8>)
        requires
            self.byte_files().assets().contains_key(byte_file_handle.index),
        ensures
            *r == self.byte_files().assets()[byte_file_handle.index],
    {
        self.byte_mappings.get(byte_file_handle.index).unwrap()
    }
}

} // verus!
