//! Resource handles and the error taxonomy of the asset registry.
//!
//! An [`AssetRef`] is an opaque reference to a registered resource: an
//! optional positional slot, an optional name, and a resource-kind tag.
//! A handle with neither slot nor name is invalid, and every resolution
//! attempt on it fails with [`Error::NullReference`].

use vstd::prelude::*;

verus! {

/// Errors surfaced by asset loading and handle resolution.
#[derive(Debug, Clone, Copy, PartialEq, Eq, Structural)]
pub enum Error {
    /// A raw-bytes load failed because the file was absent.
    FileNotFound,
    /// A raw-bytes load failed because the file was over the size limit.
    FileTooLarge,
    /// The graphics backend reported an unrecoverable resource-creation failure.
    WGPUUnknown,
    /// The handle carried neither a slot nor a name.
    NullReference,
    /// Slot and/or name lookups were attempted and all of them failed.
    AssetNotFound,
    /// A material's diffuse texture has no bind group, so it can never be
    /// sampled by a draw; referencing it from a material is a scene bug.
    MissingBindGroup,
}

impl Error {
    /// A human-readable description of the error.
    pub fn describe(&self) -> (r: &'static str)
        ensures
            self is FileNotFound ==> r@
                == "AssetManager : File not found, make sure the file is in the correct folder"@,
            self is FileTooLarge ==> r@ == "AssetManager : File too large."@,
            self is WGPUUnknown ==> r@ == "AssetManager : Unknown error occured within WGPU"@,
            self is NullReference ==> r@
                == "AssetManager : AssetRef does not contain a name OR id"@,
            self is AssetNotFound ==> r@ == "AssetManager : Asset not registered"@,
            self is MissingBindGroup ==> r@
                == "AssetManager : Material uses a texture without a bind group"@,
    {
        proof {
            reveal_strlit("AssetManager : File not found, make sure the file is in the correct folder");
            reveal_strlit("AssetManager : File too large.");
            reveal_strlit("AssetManager : Unknown error occured within WGPU");
            reveal_strlit("AssetManager : AssetRef does not contain a name OR id");
            reveal_strlit("AssetManager : Asset not registered");
            reveal_strlit("AssetManager : Material uses a texture without a bind group");
        }
        match self {
            Error::FileNotFound => "AssetManager : File not found, make sure the file is in the correct folder",
            Error::FileTooLarge => "AssetManager : File too large.",
            Error::WGPUUnknown => "AssetManager : Unknown error occured within WGPU",
            Error::NullReference => "AssetManager : AssetRef does not contain a name OR id",
            Error::AssetNotFound => "AssetManager : Asset not registered",
            Error::MissingBindGroup => "AssetManager : Material uses a texture without a bind group",
        }
    }
}

/// The kind of resource a handle refers to; each kind has its own pool.
#[derive(Debug, Clone, Copy, PartialEq, Eq, Structural)]
pub enum AssetType {
    Mesh,
    Texture,
    Material,
    Shader,
    RenderPipeline,
}

/// An opaque reference to a registered resource.
///
/// Carries an optional stable slot (`id`), an optional name, and the
/// resource kind.  Registry insertion returns a handle with both fields
/// populated; callers that only know a name may construct a name-only
/// handle by hand.  A handle is never mutated after construction and
/// carries no ownership of the underlying resource.
#[derive(Debug, Clone)]
pub struct AssetRef {
    pub id: Option<usize>,
    pub name: Option<String>,
    pub asset_type: AssetType,
}

impl AssetRef {
    /// Builds a handle from its parts.
    pub fn new(id: Option<usize>, name: Option<String>, asset_type: AssetType) -> (r: AssetRef)
        ensures
            r.id == id,
            r.name == name,
            r.asset_type == asset_type,
    {
        AssetRef { id, name, asset_type }
    }

    /// True if the handle carries a positional slot.
    pub open spec fn spec_has_id(&self) -> bool {
        self.id is Some
    }

    /// True if the handle carries a name.
    pub open spec fn spec_has_name(&self) -> bool {
        self.name is Some
    }

    /// True if the handle can be resolved at all: at least one of the
    /// slot and the name is present.
    pub open spec fn spec_is_populated(&self) -> bool {
        self.spec_has_id() || self.spec_has_name()
    }

    /// Checks the handle's invariant: at least one of slot and name must
    /// be set.  Returns which of the two are present, or
    /// [`Error::NullReference`] for a handle with neither.
    pub fn validate(&self) -> (r: Result<(bool, bool), Error>)
        ensures
            self.spec_is_populated() ==> r == Ok::<(bool, bool), Error>((
                self.spec_has_id(),
                self.spec_has_name(),
            )),
            !self.spec_is_populated() ==> r == Err::<(bool, bool), Error>(Error::NullReference),
    {
        let has_name = match &self.name {
            Some(_) => true,
            None => false,
        };
        let has_id = match &self.id {
            Some(_) => true,
            None => false,
        };
        if !has_id && !has_name {
            Err(Error::NullReference)
        } else {
            Ok((has_id, has_name))
        }
    }
}

} // verus!
