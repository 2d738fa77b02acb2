//! Decisions of the production IL2CPP backend.
//!
//! The `il2cpp_domain_get` probe runs exactly once; its result is captured and
//! used for attaching. Attachments are only ever detached by the guard that
//! created them, and an attachment that was found is adopted without owning
//! it.

use vstd::prelude::*;

use crate::backend::{AttachGuard, DomainHandle, ImageHandle, ImageIdentity, RuntimeIdentity};
use crate::error::Il2CppError;
use crate::paths::{file_name, same_path};
use crate::text::{has_nul, same_text};

verus! {

/// File name of the game's image.
pub const UNITY_FRAMEWORK_IMAGE: &'static str = "UnityFramework";

/// The image at this path is the game's: its file name is.
pub open spec fn is_unity_framework(path: Option<String>) -> bool {
    path is Some && crate::paths::last_component(path->Some_0@) == Some(UNITY_FRAMEWORK_IMAGE@)
}

/// `r` is the place of the first of `paths` that is the game's image.
pub open spec fn is_first_framework(paths: Seq<Option<String>>, r: Option<usize>) -> bool {
    match r {
        Some(index) => {
            &&& index < paths.len()
            &&& is_unity_framework(paths[index as int])
            &&& forall|k: int| 0 <= k < index ==> !is_unity_framework(#[trigger] paths[k])
        },
        None => forall|k: int| 0 <= k < paths.len() ==> !is_unity_framework(#[trigger] paths[k]),
    }
}

/// The position of the game's image among the loaded images, given their paths
/// in load order; an image without a path is passed over.
pub fn enumerate_unity_framework(paths: &Vec<Option<String>>) -> (r: Option<usize>)
    ensures
        is_first_framework(paths@, r),
{
    let mut index: usize = 0;
    while index < paths.len()
        invariant
            index <= paths.len(),
            forall|k: int| 0 <= k < index ==> !is_unity_framework(#[trigger] paths[k]),
        decreases paths.len() - index,
    {
        if let Some(path) = &paths[index] {
            if let Some(name) = file_name(path.as_str()) {
                if same_text(name.as_str(), UNITY_FRAMEWORK_IMAGE) {
                    return Some(index);
                }
            }
        }
        index += 1;
    }
    None
}

/// Handle to one exact loaded image, kept alive for the process lifetime.
/// Symbol lookups through it never fall back to global visibility.
#[derive(Debug)]
pub struct ExactHandle {
    raw: usize,
    path: String,
}

impl ExactHandle {
    /// The handle of the dynamic loader.
    pub closed spec fn address(&self) -> usize {
        self.raw
    }

    /// The file that the image was loaded from.
    pub closed spec fn file(&self) -> Seq<char> {
        self.path@
    }

    /// Opens the image at `path`. `adopt` asks for the handle of an image that
    /// is already loaded, `load` loads it; both answer 0 for none. The image is
    /// only loaded where there is nothing to adopt.
    pub fn open<A: FnOnce(&String) -> usize, L: FnOnce(&String) -> usize>(
        path: String,
        adopt: A,
        load: L,
    ) -> (r: Result<Self, Il2CppError>)
        requires
            !path@.contains('\0') ==> adopt.requires((&path,)),
            !path@.contains('\0') && adopt.ensures((&path,), 0) ==> load.requires((&path,)),
        ensures
            if path@.contains('\0') {
                r is Err && r->Err_0 == Il2CppError::ImageIdentityMismatch
            } else {
                exists|adopted: usize|
                    {
                        &&& #[trigger] adopt.ensures((&path,), adopted)
                        &&& if adopted != 0 {
                            r is Ok && r->Ok_0.address() == adopted && r->Ok_0.file() == path@
                        } else {
                            exists|loaded: usize|
                                {
                                    &&& #[trigger] load.ensures((&path,), loaded)
                                    &&& if loaded != 0 {
                                        r is Ok && r->Ok_0.address() == loaded && r->Ok_0.file()
                                            == path@
                                    } else {
                                        r is Err && r->Err_0 == Il2CppError::ImageNotFound
                                    }
                                }
                        }
                    }
            },
    {
        if has_nul(path.as_str()) {
            return Err(Il2CppError::ImageIdentityMismatch);
        }
        let adopted: usize = adopt(&path);
        if adopted != 0 {
            return Ok(ExactHandle { raw: adopted, path });
        }
        let loaded: usize = load(&path);
        if loaded == 0 {
            return Err(Il2CppError::ImageNotFound);
        }
        Ok(ExactHandle { raw: loaded, path })
    }

    /// The handle of an image that is already loaded.
    pub fn from_raw(raw: usize, path: String) -> (r: Self)
        ensures
            r.address() == raw,
            r.file() == path@,
    {
        ExactHandle { raw, path }
    }

    /// File path this handle was opened from.
    #[must_use]
    pub fn path(&self) -> (r: &String)
        ensures
            r@ == self.file(),
    {
        &self.path
    }

    /// Identity facts of the exact image: it is named by its file.
    #[must_use]
    pub fn identity(&self) -> (r: ImageIdentity)
        ensures
            r.handle == ImageHandle(self.address()),
            r.name@ == match crate::paths::last_component(self.file()) {
                Some(name) => name,
                None => Seq::<char>::empty(),
            },
    {
        let name: String = match file_name(self.path.as_str()) {
            Some(name) => name,
            None => {
                proof {
                    reveal_strlit("");
                }
                assert(""@ =~= Seq::<char>::empty());
                "".to_owned()
            },
        };
        ImageIdentity { name, handle: ImageHandle(self.raw) }
    }

    /// Resolves one export through `lookup`, requiring it to belong to this
    /// exact image: `owner` says which image an address lies in.
    #[must_use]
    pub fn symbol<L: FnOnce(usize, &str) -> usize, O: FnOnce(usize) -> Option<String>>(
        &self,
        name: &str,
        lookup: L,
        owner: O,
    ) -> (r: Option<usize>)
        requires
            !name@.contains('\0') ==> lookup.requires((self.address(), name)),
            forall|address: usize|
                address != 0 && #[trigger] lookup.ensures((self.address(), name), address)
                    ==> owner.requires((address,)),
        ensures
            if name@.contains('\0') {
                r is None
            } else {
                exists|address: usize|
                    {
                        &&& #[trigger] lookup.ensures((self.address(), name), address)
                        &&& if address == 0 {
                            r is None
                        } else {
                            exists|image: Option<String>|
                                {
                                    &&& #[trigger] owner.ensures((address,), image)
                                    &&& r == exact_owner(address, image, self.file())
                                }
                        }
                    }
            },
    {
        if has_nul(name) {
            return None;
        }
        let address: usize = lookup(self.raw, name);
        if address == 0 {
            return None;
        }
        let image = owner(address);
        let ghost found = image;
        assert(owner.ensures((address,), found));
        exact_symbol(address, image, self.path.as_str())
    }
}

/// The exact handle and the captured domain.
#[derive(Debug)]
pub struct BridgeBackend {
    handle: ExactHandle,
    domain: usize,
}

impl BridgeBackend {
    /// The captured domain pointer; 0 before the probe has run.
    pub closed spec fn captured(&self) -> usize {
        self.domain
    }

    /// The exact image.
    pub closed spec fn image(&self) -> ExactHandle {
        self.handle
    }

    #[must_use]
    pub fn new(handle: ExactHandle) -> (r: Self)
        ensures
            r.image() == handle,
            r.captured() == 0,
    {
        BridgeBackend { handle, domain: 0 }
    }

    /// The exact handle.
    #[must_use]
    pub fn handle(&self) -> (r: &ExactHandle)
        ensures
            *r == self.image(),
    {
        &self.handle
    }

    /// The captured domain handle, once the probe has run.
    #[must_use]
    pub fn domain(&self) -> (r: Option<DomainHandle>)
        ensures
            r == if self.captured() != 0 {
                Some(DomainHandle(self.captured()))
            } else {
                None
            },
    {
        if self.domain != 0 {
            Some(DomainHandle(self.domain))
        } else {
            None
        }
    }

    /// The domain, through `probe` unless it was captured before: the probe is
    /// not run again once it has answered. Null terminates the bootstrap.
    pub fn domain_get<F: FnOnce() -> usize>(&mut self, probe: F) -> (r: Result<
        DomainHandle,
        Il2CppError,
    >)
        requires
            old(self).captured() == 0 ==> probe.requires(()),
        ensures
            final(self).image() == old(self).image(),
            if old(self).captured() != 0 {
                &&& r is Ok && r->Ok_0 == DomainHandle(old(self).captured())
                &&& final(self).captured() == old(self).captured()
            } else {
                exists|raw: usize|
                    {
                        &&& #[trigger] probe.ensures((), raw)
                        &&& final(self).captured() == raw
                        &&& if raw == 0 {
                            r is Err && r->Err_0 == Il2CppError::DomainUnavailable
                        } else {
                            r is Ok && r->Ok_0 == DomainHandle(raw)
                        }
                    }
            },
    {
        if self.domain != 0 {
            return Ok(DomainHandle(self.domain));
        }
        let raw: usize = probe();
        if raw == 0 {
            return Err(Il2CppError::DomainUnavailable);
        }
        self.domain = raw;
        Ok(DomainHandle(raw))
    }

    /// Attaches the current thread with the captured domain, never by probing
    /// again. `current` asks for an existing attachment, `attach` makes one; both
    /// answer 0 for none. A thread that is attached is not attached again.
    pub fn attach_current_thread<C: FnOnce() -> usize, A: FnOnce(usize) -> usize>(
        &self,
        current: C,
        attach: A,
    ) -> (r: Result<(AttachGuard, usize), Il2CppError>)
        requires
            self.captured() != 0 ==> current.requires(()),
            self.captured() != 0 && current.ensures((), 0) ==> attach.requires((self.captured(),)),
        ensures
            if self.captured() == 0 {
                r is Err && r->Err_0 == Il2CppError::NotReady
            } else {
                exists|found: usize|
                    {
                        &&& #[trigger] current.ensures((), found)
                        &&& if found != 0 {
                            r is Ok && !r->Ok_0.0.is_armed() && r->Ok_0.1 == found
                        } else {
                            exists|made: usize|
                                {
                                    &&& #[trigger] attach.ensures((self.captured(),), made)
                                    &&& if made == 0 {
                                        r is Err && r->Err_0 == Il2CppError::AttachFailed
                                    } else {
                                        r is Ok && r->Ok_0.0.is_armed() && r->Ok_0.1 == made
                                    }
                                }
                        }
                    }
            },
    {
        if self.domain == 0 {
            return Err(Il2CppError::NotReady);
        }
        let found: usize = current();
        if found != 0 {
            return Ok((AttachGuard::new(false), found));
        }
        let made: usize = attach(self.domain);
        if made == 0 {
            return Err(Il2CppError::AttachFailed);
        }
        Ok((AttachGuard::new(true), made))
    }
}

/// What loading the exports came to, given the exports that are missing where
/// it failed: the first of them is reported.
pub fn exports_result(missing: Option<Vec<&'static str>>) -> (r: Result<(), Il2CppError>)
    ensures
        match missing {
            None => r is Ok,
            Some(names) => r is Err && r->Err_0 == if names.len() > 0 {
                Il2CppError::ExportMissing(names[0])
            } else {
                Il2CppError::NotReady
            },
        },
{
    match missing {
        None => Ok(()),
        Some(names) => if names.len() > 0 {
            Err(Il2CppError::ExportMissing(names[0]))
        } else {
            Err(Il2CppError::NotReady)
        },
    }
}

/// What hydrating the metadata cache came to.
pub fn hydrate_result(hydrated: bool) -> (r: Result<(), Il2CppError>)
    ensures
        r is Ok <==> hydrated,
        r is Err ==> r->Err_0 == Il2CppError::NotReady,
{
    if hydrated {
        Ok(())
    } else {
        Err(Il2CppError::NotReady)
    }
}

/// The runtime identity, given the name of the core library in the cache.
pub fn runtime_identity(corlib: Option<String>) -> (r: Result<RuntimeIdentity, Il2CppError>)
    ensures
        match corlib {
            None => r is Err && r->Err_0 == Il2CppError::IdentityMismatch,
            Some(name) => {
                &&& r is Ok
                &&& r->Ok_0.unity_version@ == name@
                &&& r->Ok_0.il2cpp_variant@ == "il2cpp-bridge-rs/0.1.4"@
            },
        },
{
    match corlib {
        None => Err(Il2CppError::IdentityMismatch),
        Some(name) => Ok(
            RuntimeIdentity {
                unity_version: name,
                il2cpp_variant: "il2cpp-bridge-rs/0.1.4".to_owned(),
            },
        ),
    }
}

/// A symbol at `address`, in the image `owner`, counts where that image is the
/// one at `path`, component by component.
pub open spec fn exact_owner(address: usize, owner: Option<String>, path: Seq<char>) -> Option<
    usize,
> {
    if address != 0 && owner is Some && crate::paths::is_same_path(owner->Some_0@, path) {
        Some(address)
    } else {
        None
    }
}

/// A symbol found through the exact handle, given the image that owns its
/// address: a hit in another image does not count.
pub fn exact_symbol(address: usize, owner: Option<String>, path: &str) -> (r: Option<usize>)
    ensures
        r == exact_owner(address, owner, path@),
{
    if address == 0 {
        return None;
    }
    match owner {
        Some(owner) => if same_path(owner.as_str(), path) {
            Some(address)
        } else {
            None
        },
        None => None,
    }
}

/// Read-only callback-domain IL2CPP capability.
#[derive(Clone, Copy, Debug)]
pub struct CallbackIl2Cpp {
    private: (),
}

/// What borrowing a managed string gives.
#[derive(Debug, Clone, Copy, PartialEq, Eq, Structural)]
pub enum StringBorrow {
    /// Nothing: a null pointer, a negative length, or a malformed string.
    Nothing,
    /// The empty string.
    Empty,
    /// This many code units behind the character pointer.
    Units(usize),
}

impl CallbackIl2Cpp {
    pub fn new() -> Self {
        CallbackIl2Cpp { private: () }
    }

    /// How to borrow the UTF-16 code units of a managed string, given whether
    /// its pointer and its character pointer are null, and its runtime length.
    pub fn string_utf16(&self, string_null: bool, length: i32, chars_null: bool) -> (r: StringBorrow)
        ensures
            r == if string_null || length < 0 {
                StringBorrow::Nothing
            } else if length == 0 {
                StringBorrow::Empty
            } else if chars_null {
                StringBorrow::Nothing
            } else {
                StringBorrow::Units(length as usize)
            },
    {
        if string_null || length < 0 {
            StringBorrow::Nothing
        } else if length == 0 {
            StringBorrow::Empty
        } else if chars_null {
            StringBorrow::Nothing
        } else {
            StringBorrow::Units(length as usize)
        }
    }
}

/// Offset of the length in a managed string object.
pub const STRING_LENGTH_OFFSET: usize = 0x10;

/// Offset of the first code unit in a managed string object.
pub const STRING_UNITS_OFFSET: usize = 0x14;

/// The address of a code unit of the managed string object at `ptr`.
pub open spec fn unit_address(ptr: usize, index: int) -> usize {
    (ptr + STRING_UNITS_OFFSET + 2 * index) as usize
}

/// The UTF-16 contents of a managed string object at `ptr`, whose length and
/// code units `read_length` and `read_unit` read. A null pointer has none; a
/// length that is not positive is an empty string. Nothing but the length and
/// the code units is read.
pub fn read_il2cpp_string_utf16<L: FnOnce(usize) -> i32, U: Fn(usize) -> u16>(
    ptr: usize,
    read_length: L,
    read_unit: &U,
) -> (r: Option<Vec<u16>>)
    requires
        ptr as int + STRING_UNITS_OFFSET + 2 * i32::MAX <= usize::MAX,
        ptr != 0 ==> read_length.requires(((ptr + STRING_LENGTH_OFFSET) as usize,)),
        forall|length: i32, i: int|
            #![trigger read_length.ensures(((ptr + STRING_LENGTH_OFFSET) as usize,), length), unit_address(ptr, i)]
            ptr != 0 && read_length.ensures(((ptr + STRING_LENGTH_OFFSET) as usize,), length) && 0
                <= i < length ==> read_unit.requires((unit_address(ptr, i),)),
    ensures
        r is Some <==> ptr != 0,
        ptr != 0 ==> exists|length: i32|
            {
                &&& #[trigger] read_length.ensures(((ptr + STRING_LENGTH_OFFSET) as usize,), length)
                &&& r->Some_0.len() == if length > 0 {
                    length as int
                } else {
                    0
                }
                &&& forall|i: int|
                    0 <= i < r->Some_0.len() ==> read_unit.ensures(
                        (unit_address(ptr, i),),
                        #[trigger] r->Some_0[i],
                    )
            },
{
    if ptr == 0 {
        return None;
    }
    let length: i32 = read_length(ptr + STRING_LENGTH_OFFSET);
    let mut units: Vec<u16> = Vec::new();
    assert(read_length.ensures(((ptr + STRING_LENGTH_OFFSET) as usize,), length));
    if length <= 0 {
        return Some(units);
    }
    let count: usize = length as usize;
    while units.len() < count
        invariant
            units.len() <= count,
            count == length,
            ptr as int + STRING_UNITS_OFFSET + 2 * i32::MAX <= usize::MAX,
            forall|i: int|
                0 <= i < length ==> read_unit.requires((#[trigger] unit_address(ptr, i),)),
            forall|i: int|
                0 <= i < units.len() ==> read_unit.ensures(
                    (unit_address(ptr, i),),
                    #[trigger] units[i],
                ),
        decreases count - units.len(),
    {
        let ghost next = units.len() as int;
        let address: usize = ptr + STRING_UNITS_OFFSET + units.len() * 2;
        assert(address == unit_address(ptr, next));
        let unit: u16 = read_unit(address);
        units.push(unit);
    }
    Some(units)
}

} // verus!
