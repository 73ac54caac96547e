//! Native image loader: turns a raw shared-library image into a linked
//! in-memory module and resolves exported symbols.
//!
//! The pipeline is retag -> link -> resolve. Retagging rewrites the
//! format-identifying byte of the image so the dynamic loader accepts the
//! buffer as a loadable bundle; linking and symbol resolution are native
//! calls whose raw outcomes (a success flag, a module handle, a symbol
//! handle, an address) are mapped here to typed results.

use vstd::prelude::*;

verus! {

/// Offset of the image-type tag in the image header. For the Mach-O header
/// this is the `filetype` field: magic, cputype and cpusubtype each take
/// four bytes, so the tag starts at byte twelve.
pub const IMAGE_TYPE_OFFSET: usize = 12;

/// Image-type tag of a loadable bundle (`MH_BUNDLE`), the subtype the
/// dynamic loader links directly from memory.
pub const BUNDLE_IMAGE_TYPE: u8 = 8;

/// Errors raised while materializing a linked module from a raw
/// shared-library image and resolving its exports.
#[derive(Clone, Copy, Debug, PartialEq, Eq, Structural)]
pub enum BundleLoadError {
    /// The platform loader rejected the image buffer.
    InvalidNSObject,
    /// The requested export does not exist in the linked module.
    SymbolResolutionFailure,
    /// The export was found but its address lookup returned the zero
    /// sentinel.
    SymbolAddressFailure,
    /// The image buffer is too short to hold the format tag.
    ImageTooShortError,
}

impl BundleLoadError {
    /// The diagnostic text for this error.
    pub open spec fn message_spec(self) -> Seq<char> {
        match self {
            BundleLoadError::InvalidNSObject => "Error converting byte array to NSObject"@,
            BundleLoadError::SymbolResolutionFailure => "Symbol does not exist within the NSObject"@,
            BundleLoadError::SymbolAddressFailure => "Symbol resolved but the address lookup failed"@,
            BundleLoadError::ImageTooShortError => "Image buffer is too short to hold the format tag"@,
        }
    }

    /// The diagnostic text for this error.
    pub fn message(&self) -> (r: &'static str)
        ensures
            r@ == self.message_spec(),
    {
        match self {
            BundleLoadError::InvalidNSObject => "Error converting byte array to NSObject",
            BundleLoadError::SymbolResolutionFailure => "Symbol does not exist within the NSObject",
            BundleLoadError::SymbolAddressFailure => "Symbol resolved but the address lookup failed",
            BundleLoadError::ImageTooShortError => "Image buffer is too short to hold the format tag",
        }
    }
}

/// The byte sequence of an image after its type tag is rewritten to the
/// bundle tag.
pub open spec fn retagged(s: Seq<u8>) -> Seq<u8> {
    s.update(IMAGE_TYPE_OFFSET as int, BUNDLE_IMAGE_TYPE)
}

/// A shared-library image whose type tag has been rewritten to the bundle
/// tag. Holding one is the only way to reach the linking stage, so a buffer
/// that was never retagged cannot be submitted to the loader.
pub struct RetaggedImage {
    bytes: Vec<u8>,
}

impl View for RetaggedImage {
    type V = Seq<u8>;

    closed spec fn view(&self) -> Seq<u8> {
        self.bytes@
    }
}

impl RetaggedImage {
    /// Rewrites the image-type tag in place, consuming the raw buffer.
    /// Fails with `ImageTooShortError` when the buffer cannot hold the tag,
    /// rather than writing out of range.
    pub fn retag(data: Vec<u8>) -> (r: Result<RetaggedImage, BundleLoadError>)
        ensures
            data@.len() <= IMAGE_TYPE_OFFSET ==> r == Err::<RetaggedImage, BundleLoadError>(
                BundleLoadError::ImageTooShortError,
            ),
            data@.len() > IMAGE_TYPE_OFFSET ==> (r matches Ok(img) && img@ == retagged(data@)),
    {
        let mut bytes = data;
        if bytes.len() <= IMAGE_TYPE_OFFSET {
            return Err(BundleLoadError::ImageTooShortError);
        }
        bytes[IMAGE_TYPE_OFFSET] = BUNDLE_IMAGE_TYPE;
        Ok(RetaggedImage { bytes })
    }

    /// Read access for the driver that hands the buffer to the loader.
    pub fn bytes(&self) -> (r: &Vec<u8>)
        ensures
            r@ == self@,
    {
        &self.bytes
    }

    /// Length of the retagged image in bytes.
    pub fn len(&self) -> (n: usize)
        ensures
            n == self@.len(),
    {
        self.bytes.len()
    }
}

/// Law: retagging is idempotent. Applying the tag rewrite a second time
/// leaves the bytes of a linkable image unchanged.
pub proof fn lemma_retag_idempotent(s: Seq<u8>)
    requires
        s.len() > IMAGE_TYPE_OFFSET,
    ensures
        retagged(retagged(s)) == retagged(s),
{
    assert(retagged(retagged(s)) =~= retagged(s));
}

/// A module linked into the process from an in-memory image. `handle` is
/// the raw address of the loader's module object; `unlinked` records
/// whether the owner has already released it.
pub struct LinkedModule {
    handle: usize,
    unlinked: bool,
}

impl LinkedModule {
    /// The raw module handle the native link call produced.
    pub closed spec fn handle_spec(self) -> usize {
        self.handle
    }

    /// Whether the module has been released by its owner.
    pub closed spec fn released(self) -> bool {
        self.unlinked
    }

    /// The state a module reaches after a release decision.
    pub closed spec fn after_release(self) -> LinkedModule {
        LinkedModule { unlinked: true, ..self }
    }

    /// Decision core of linking: `created` is whether the loader's
    /// create-image call reported success, `module_handle` is what the link
    /// call returned. Fails with `InvalidNSObject` exactly when the image
    /// was rejected.
    pub fn link(created: bool, module_handle: usize) -> (r: Result<LinkedModule, BundleLoadError>)
        ensures
            !created ==> r == Err::<LinkedModule, BundleLoadError>(BundleLoadError::InvalidNSObject),
            created ==> (r matches Ok(m) && m.handle_spec() == module_handle && !m.released()),
    {
        if !created {
            return Err(BundleLoadError::InvalidNSObject);
        }
        Ok(LinkedModule { handle: module_handle, unlinked: false })
    }

    /// Release decision for the owner's teardown: returns whether the
    /// driver must make the native unlink call, which is true exactly on
    /// the first release.
    pub fn release(&mut self) -> (do_unlink: bool)
        ensures
            *final(self) == old(self).after_release(),
            final(self).released(),
            final(self).handle_spec() == old(self).handle_spec(),
            do_unlink == !old(self).released(),
    {
        let first = !self.unlinked;
        self.unlinked = true;
        first
    }
}

/// Law: a module is unlinked exactly once however many times its owner is
/// torn down. After one release the module counts as released, a repeated
/// release changes nothing, and no release after the first asks the driver
/// for another native unlink.
pub proof fn lemma_release_exactly_once(m: LinkedModule)
    ensures
        m.after_release().released(),
        m.after_release().after_release() == m.after_release(),
        m.after_release().handle_spec() == m.handle_spec(),
{
}

/// A resolved named export of a linked module. The handle is the raw
/// address of the loader's symbol object and is never the null sentinel.
#[derive(Clone, Copy, Debug, PartialEq, Eq, Structural)]
pub struct Symbol {
    /// Raw address of the loader's symbol object.
    pub handle: usize,
}

/// Owning wrapper around a linked in-memory module together with the
/// retagged image it was materialized from; the image must stay alive for
/// as long as the module, so the wrapper keeps both.
pub struct BundleLibrary {
    image: RetaggedImage,
    module: LinkedModule,
}

impl BundleLibrary {
    /// The bytes of the retagged image the module was linked from.
    pub closed spec fn image_spec(self) -> Seq<u8> {
        self.image@
    }

    /// The raw handle of the linked module.
    pub closed spec fn module_handle(self) -> usize {
        self.module.handle_spec()
    }

    /// Whether the linked module has been released.
    pub closed spec fn released(self) -> bool {
        self.module.released()
    }

    /// Decision core of instantiation. The driver retags the buffer, hands
    /// it to the loader's create-image primitive and links the result;
    /// `created` is whether the create-image call reported success and
    /// `module_handle` is the link call's result. Fails with
    /// `InvalidNSObject` exactly when the loader rejected the image.
    pub fn new(image: RetaggedImage, created: bool, module_handle: usize) -> (r: Result<
        BundleLibrary,
        BundleLoadError,
    >)
        ensures
            !created ==> r == Err::<BundleLibrary, BundleLoadError>(
                BundleLoadError::InvalidNSObject,
            ),
            created ==> (r matches Ok(lib) && lib.image_spec() == image@
                && lib.module_handle() == module_handle && !lib.released()),
    {
        let module = LinkedModule::link(created, module_handle)?;
        Ok(BundleLibrary { image, module })
    }

    /// The bytes of the image the module was linked from.
    pub fn image_bytes(&self) -> (r: &Vec<u8>)
        ensures
            r@ == self.image_spec(),
    {
        self.image.bytes()
    }

    /// Decision core of symbol lookup: `raw_symbol` is what the native
    /// in-module lookup returned for the requested name. Fails with
    /// `SymbolResolutionFailure` exactly when the lookup returned the null
    /// sentinel, which is how the loader reports a missing export.
    pub fn get_symbol(&self, raw_symbol: usize) -> (r: Result<Symbol, BundleLoadError>)
        ensures
            r == if raw_symbol == 0 {
                Err::<Symbol, BundleLoadError>(BundleLoadError::SymbolResolutionFailure)
            } else {
                Ok::<Symbol, BundleLoadError>(Symbol { handle: raw_symbol })
            },
    {
        if raw_symbol == 0 {
            return Err(BundleLoadError::SymbolResolutionFailure);
        }
        Ok(Symbol { handle: raw_symbol })
    }

    /// Decision core of address resolution: `raw_symbol` is the outcome of
    /// the name lookup and `raw_address` the outcome of the loader's
    /// address query for that symbol. A missing export fails with
    /// `SymbolResolutionFailure`; a zero address is a resolution failure,
    /// not a valid symbol, and fails with `SymbolAddressFailure` even
    /// though the lookup itself succeeded.
    pub fn get_symbol_address(&self, raw_symbol: usize, raw_address: usize) -> (r: Result<
        usize,
        BundleLoadError,
    >)
        ensures
            raw_symbol == 0 ==> r == Err::<usize, BundleLoadError>(
                BundleLoadError::SymbolResolutionFailure,
            ),
            raw_symbol != 0 && raw_address == 0 ==> r == Err::<usize, BundleLoadError>(
                BundleLoadError::SymbolAddressFailure,
            ),
            raw_symbol != 0 && raw_address != 0 ==> r == Ok::<usize, BundleLoadError>(raw_address),
    {
        let _symbol = self.get_symbol(raw_symbol)?;
        if raw_address == 0 {
            return Err(BundleLoadError::SymbolAddressFailure);
        }
        Ok(raw_address)
    }

    /// Release decision for the owner's teardown: returns whether the
    /// driver must make the native unlink call, true exactly on the first
    /// release.
    pub fn release(&mut self) -> (do_unlink: bool)
        ensures
            final(self).released(),
            final(self).image_spec() == old(self).image_spec(),
            final(self).module_handle() == old(self).module_handle(),
            do_unlink == !old(self).released(),
    {
        self.module.release()
    }
}

} // verus!
