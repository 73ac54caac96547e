//! Managed runtime loader: acquires the platform's runtime-discovery
//! service, starts the execution engine, loads a module image into the
//! default execution domain and invokes its entry routine with marshalled
//! string arguments.
//!
//! The acquisition is a strictly ordered chain of native calls, each made
//! by an unverified platform driver. Every decision along the chain — which
//! raw outcome advances to the next stage and which error a failing stage
//! surfaces — stands here as a verified function, so a later stage's handle
//! is never obtainable from a failing earlier stage. The marshalling of
//! string arguments into the host's array/variant calling convention is
//! modelled byte for byte and unit for unit.

use vstd::prelude::*;

verus! {

/// Errors raised along the managed-runtime acquisition, load and
/// invocation sequence, one variant per stage that can fail.
#[derive(Clone, Copy, Debug, PartialEq, Eq, Structural)]
pub enum CLRLoadError {
    /// The runtime-hosting shared library could not be found.
    LoadLibraryError,
    /// The instance-creation entry point is absent from that library.
    LoadFunctionError,
    /// Constructing the runtime-discovery service reported a non-success
    /// status.
    CreateClrInstanceError,
    /// The requested runtime version is unavailable on the host.
    GetRuntimeError,
    /// The modern hosting interface could not be obtained.
    GetClrInterfaceError,
    /// The legacy hosting interface could not be obtained.
    GetCorInterfaceError,
    /// Starting the execution engine reported a non-success status
    /// (surfaced in strict mode only).
    StartError,
    /// Loading the module image into the domain reported a non-success
    /// status.
    AssemblyLoadError,
    /// The module's entry routine could not be resolved.
    EntrypointResolutionError,
    /// Invoking the entry routine reported a non-success status (surfaced
    /// in strict mode only).
    InvocationError,
}

/// The hardcoded identifier of the managed-runtime version the locator
/// resolves.
pub open spec fn runtime_version_spec() -> Seq<char> {
    "v4.0.30319"@
}

/// The hardcoded identifier of the managed-runtime version the locator
/// resolves, as the discovery service takes it.
pub fn runtime_version() -> (r: &'static str)
    ensures
        r@ == runtime_version_spec(),
{
    "v4.0.30319"
}

/// Handle to the platform's runtime-discovery service.
#[derive(Clone, Copy, Debug, PartialEq, Eq, Structural)]
pub struct RuntimeLocator {
    /// Raw interface pointer of the discovery service.
    pub meta_host: usize,
}

/// A specific resolved runtime version.
#[derive(Clone, Copy, Debug, PartialEq, Eq, Structural)]
pub struct RuntimeInfo {
    /// Raw interface pointer of the resolved runtime.
    pub handle: usize,
}

/// The runtime's execution engine, obtained through the modern hosting
/// interface.
#[derive(Clone, Copy, Debug, PartialEq, Eq, Structural)]
pub struct RuntimeHost {
    /// Raw interface pointer of the hosting interface.
    pub handle: usize,
    /// Whether the engine start call has been accepted.
    pub started: bool,
}

/// Validates the handle of the runtime-hosting shared library. Fails with
/// `LoadLibraryError` exactly when the library load returned the null
/// sentinel.
pub fn check_host_library(library: usize) -> (r: Result<usize, CLRLoadError>)
    ensures
        r == if library == 0 {
            Err::<usize, CLRLoadError>(CLRLoadError::LoadLibraryError)
        } else {
            Ok::<usize, CLRLoadError>(library)
        },
{
    if library == 0 {
        return Err(CLRLoadError::LoadLibraryError);
    }
    Ok(library)
}

/// Validates the address of the instance-creation entry point resolved
/// from the hosting library. Fails with `LoadFunctionError` exactly when
/// the resolution returned the null sentinel.
pub fn check_instance_creator(creator: usize) -> (r: Result<usize, CLRLoadError>)
    ensures
        r == if creator == 0 {
            Err::<usize, CLRLoadError>(CLRLoadError::LoadFunctionError)
        } else {
            Ok::<usize, CLRLoadError>(creator)
        },
{
    if creator == 0 {
        return Err(CLRLoadError::LoadFunctionError);
    }
    Ok(creator)
}

impl RuntimeLocator {
    /// Decision core of discovery-service creation: `create_status` is
    /// what the instance-creation entry point returned and `meta_host` the
    /// interface pointer it wrote. Fails with `CreateClrInstanceError`
    /// exactly on a non-success status.
    pub fn create(create_status: i32, meta_host: usize) -> (r: Result<RuntimeLocator, CLRLoadError>)
        ensures
            r == if create_status != 0 {
                Err::<RuntimeLocator, CLRLoadError>(CLRLoadError::CreateClrInstanceError)
            } else {
                Ok::<RuntimeLocator, CLRLoadError>(RuntimeLocator { meta_host })
            },
    {
        if create_status != 0 {
            return Err(CLRLoadError::CreateClrInstanceError);
        }
        Ok(RuntimeLocator { meta_host })
    }

    /// Decision core of version resolution: the driver asked the discovery
    /// service for the fixed runtime version. Fails with `GetRuntimeError`
    /// exactly when that version is unavailable on the host.
    pub fn resolve(&self, runtime_status: i32, runtime_handle: usize) -> (r: Result<
        RuntimeInfo,
        CLRLoadError,
    >)
        ensures
            r == if runtime_status != 0 {
                Err::<RuntimeInfo, CLRLoadError>(CLRLoadError::GetRuntimeError)
            } else {
                Ok::<RuntimeInfo, CLRLoadError>(RuntimeInfo { handle: runtime_handle })
            },
    {
        if runtime_status != 0 {
            return Err(CLRLoadError::GetRuntimeError);
        }
        Ok(RuntimeInfo { handle: runtime_handle })
    }
}

impl RuntimeInfo {
    /// Decision core of obtaining the modern hosting interface from the
    /// resolved runtime. Fails with `GetClrInterfaceError` exactly on a
    /// non-success status; the engine is not yet started.
    pub fn clr_interface(&self, status: i32, host_handle: usize) -> (r: Result<
        RuntimeHost,
        CLRLoadError,
    >)
        ensures
            r == if status != 0 {
                Err::<RuntimeHost, CLRLoadError>(CLRLoadError::GetClrInterfaceError)
            } else {
                Ok::<RuntimeHost, CLRLoadError>(RuntimeHost { handle: host_handle, started: false })
            },
    {
        if status != 0 {
            return Err(CLRLoadError::GetClrInterfaceError);
        }
        Ok(RuntimeHost { handle: host_handle, started: false })
    }

    /// Decision core of obtaining the legacy hosting interface, the one
    /// that gives access to execution domains. Fails with
    /// `GetCorInterfaceError` exactly on a non-success status.
    pub fn cor_interface(&self, status: i32, cor_handle: usize) -> (r: Result<usize, CLRLoadError>)
        ensures
            r == if status != 0 {
                Err::<usize, CLRLoadError>(CLRLoadError::GetCorInterfaceError)
            } else {
                Ok::<usize, CLRLoadError>(cor_handle)
            },
    {
        if status != 0 {
            return Err(CLRLoadError::GetCorInterfaceError);
        }
        Ok(cor_handle)
    }
}

impl RuntimeHost {
    /// Decision core of starting the execution engine. In lenient mode the
    /// status of the start call is discarded and the engine counts as
    /// started regardless; in strict mode a non-success status surfaces as
    /// `StartError` and the host does not count as started.
    pub fn start(&mut self, start_status: i32, strict: bool) -> (r: Result<(), CLRLoadError>)
        ensures
            final(self).handle == old(self).handle,
            strict && start_status != 0 ==> r == Err::<(), CLRLoadError>(CLRLoadError::StartError)
                && final(self).started == old(self).started,
            !(strict && start_status != 0) ==> r == Ok::<(), CLRLoadError>(())
                && final(self).started,
    {
        if strict && start_status != 0 {
            return Err(CLRLoadError::StartError);
        }
        self.started = true;
        Ok(())
    }
}

/// The raw outcomes of the seven native acquisition calls, in the order
/// the driver makes them: handles are zero when the call returned the null
/// sentinel, statuses are zero on success.
#[derive(Clone, Copy, Debug, PartialEq, Eq, Structural)]
pub struct LoadOutcomes {
    /// Handle of the runtime-hosting shared library.
    pub library: usize,
    /// Address of the instance-creation entry point.
    pub creator: usize,
    /// Status of constructing the runtime-discovery service.
    pub create_status: i32,
    /// Interface pointer of the discovery service.
    pub meta_host: usize,
    /// Status of resolving the fixed runtime version.
    pub runtime_status: i32,
    /// Interface pointer of the resolved runtime.
    pub runtime_info: usize,
    /// Status of obtaining the modern hosting interface.
    pub clr_status: i32,
    /// Interface pointer of the modern hosting interface.
    pub runtime_host: usize,
    /// Status of starting the execution engine.
    pub start_status: i32,
    /// Status of obtaining the legacy hosting interface.
    pub cor_status: i32,
    /// Interface pointer of the legacy hosting interface.
    pub cor_host: usize,
}

/// The started runtime with all four acquired interface handles.
#[derive(Clone, Copy, Debug, PartialEq, Eq, Structural)]
pub struct CLRInstance {
    /// Raw interface pointer of the runtime-discovery service.
    pub meta_host: usize,
    /// Raw interface pointer of the resolved runtime.
    pub runtime_info: usize,
    /// Raw interface pointer of the modern hosting interface.
    pub runtime_host: usize,
    /// Raw interface pointer of the legacy hosting interface.
    pub cor_runtime_host: usize,
    /// Whether the engine start call has been accepted.
    pub started: bool,
}

/// The outcome the acquisition sequence owes for a given set of raw native
/// outcomes: the error of the first failing stage, or the assembled
/// instance when every stage succeeded.
pub open spec fn acquisition_outcome(o: LoadOutcomes, strict: bool) -> Result<
    CLRInstance,
    CLRLoadError,
> {
    if o.library == 0 {
        Err(CLRLoadError::LoadLibraryError)
    } else if o.creator == 0 {
        Err(CLRLoadError::LoadFunctionError)
    } else if o.create_status != 0 {
        Err(CLRLoadError::CreateClrInstanceError)
    } else if o.runtime_status != 0 {
        Err(CLRLoadError::GetRuntimeError)
    } else if o.clr_status != 0 {
        Err(CLRLoadError::GetClrInterfaceError)
    } else if strict && o.start_status != 0 {
        Err(CLRLoadError::StartError)
    } else if o.cor_status != 0 {
        Err(CLRLoadError::GetCorInterfaceError)
    } else {
        Ok(
            CLRInstance {
                meta_host: o.meta_host,
                runtime_info: o.runtime_info,
                runtime_host: o.runtime_host,
                cor_runtime_host: o.cor_host,
                started: true,
            },
        )
    }
}

impl CLRInstance {
    /// The whole acquisition chain as one verified decision: maps the raw
    /// outcomes of the seven native calls to the first failing stage's
    /// error, or to the assembled instance. The driver that performs the
    /// calls stops at the first failure; this function proves that the
    /// staged constructors, chained in acquisition order, produce exactly
    /// the owed outcome.
    pub fn load(o: &LoadOutcomes, strict: bool) -> (r: Result<CLRInstance, CLRLoadError>)
        ensures
            r == acquisition_outcome(*o, strict),
    {
        let _library = check_host_library(o.library)?;
        let _creator = check_instance_creator(o.creator)?;
        let locator = RuntimeLocator::create(o.create_status, o.meta_host)?;
        let info = locator.resolve(o.runtime_status, o.runtime_info)?;
        let mut host = info.clr_interface(o.clr_status, o.runtime_host)?;
        host.start(o.start_status, strict)?;
        let cor = info.cor_interface(o.cor_status, o.cor_host)?;
        Ok(
            CLRInstance {
                meta_host: locator.meta_host,
                runtime_info: info.handle,
                runtime_host: host.handle,
                cor_runtime_host: cor,
                started: host.started,
            },
        )
    }

    /// Decision core of default-domain retrieval: the driver queried the
    /// legacy hosting interface for its default domain and then for the
    /// execution-domain interface; both status codes are deliberately
    /// discarded, and the raw interface pointer is wrapped as is.
    pub fn get_appdomain(&self, domain_handle: usize) -> (d: AppDomain)
        ensures
            d.appdomain == domain_handle,
    {
        AppDomain { appdomain: domain_handle }
    }
}

/// Law: acquisition fails closed. The outcome is decided by the first
/// failing stage alone — whatever the raw outcomes of the later calls
/// hold, the sequence surfaces that stage's error, so no later stage's
/// handle is derived from a failed predecessor.
pub proof fn lemma_acquisition_fails_closed(o: LoadOutcomes, strict: bool)
    ensures
        o.library == 0 ==> acquisition_outcome(o, strict) == Err::<CLRInstance, CLRLoadError>(
            CLRLoadError::LoadLibraryError,
        ),
        o.library != 0 && o.creator == 0 ==> acquisition_outcome(o, strict) == Err::<
            CLRInstance,
            CLRLoadError,
        >(CLRLoadError::LoadFunctionError),
        o.library != 0 && o.creator != 0 && o.create_status != 0 ==> acquisition_outcome(o, strict)
            == Err::<CLRInstance, CLRLoadError>(CLRLoadError::CreateClrInstanceError),
        o.library != 0 && o.creator != 0 && o.create_status == 0 && o.runtime_status != 0
            ==> acquisition_outcome(o, strict) == Err::<CLRInstance, CLRLoadError>(
            CLRLoadError::GetRuntimeError,
        ),
        o.library != 0 && o.creator != 0 && o.create_status == 0 && o.runtime_status == 0
            && o.clr_status != 0 ==> acquisition_outcome(o, strict) == Err::<
            CLRInstance,
            CLRLoadError,
        >(CLRLoadError::GetClrInterfaceError),
        o.library != 0 && o.creator != 0 && o.create_status == 0 && o.runtime_status == 0
            && o.clr_status == 0 && strict && o.start_status != 0 ==> acquisition_outcome(o, strict)
            == Err::<CLRInstance, CLRLoadError>(CLRLoadError::StartError),
        o.library != 0 && o.creator != 0 && o.create_status == 0 && o.runtime_status == 0
            && o.clr_status == 0 && !(strict && o.start_status != 0) && o.cor_status != 0
            ==> acquisition_outcome(o, strict) == Err::<CLRInstance, CLRLoadError>(
            CLRLoadError::GetCorInterfaceError,
        ),
{
}

/// Law: a runtime instance is never obtainable unless every acquisition
/// stage succeeded — in particular no resolved runtime without a
/// discovery service, and no hosting interface without a resolved
/// runtime.
pub proof fn lemma_acquisition_requires_every_stage(o: LoadOutcomes, strict: bool)
    ensures
        acquisition_outcome(o, strict) is Ok ==> o.library != 0 && o.creator != 0
            && o.create_status == 0 && o.runtime_status == 0 && o.clr_status == 0 && o.cor_status
            == 0 && (strict ==> o.start_status == 0),
        acquisition_outcome(o, strict) matches Ok(clr) ==> clr.started,
{
}

/// The default isolated execution context of the started runtime.
#[derive(Clone, Copy, Debug, PartialEq, Eq, Structural)]
pub struct AppDomain {
    /// Raw interface pointer of the execution-domain interface.
    pub appdomain: usize,
}

/// A loaded module (assembly) inside an execution domain.
#[derive(Clone, Copy, Debug, PartialEq, Eq, Structural)]
pub struct Assembly {
    /// Raw reference to the loaded module.
    pub handle: usize,
}

/// The host's native one-dimensional byte-array representation of a module
/// image, as the domain's byte-array load primitive takes it.
#[derive(Debug)]
pub struct ByteArray {
    /// The array's elements, positionally.
    pub elements: Vec<u8>,
}

impl ByteArray {
    /// Marshals a module image into the host's byte-array representation:
    /// the same bytes in the same order.
    pub fn from_bytes(bytes: &Vec<u8>) -> (r: ByteArray)
        ensures
            r.elements@ == bytes@,
    {
        let mut elements: Vec<u8> = Vec::new();
        let mut k: usize = 0;
        while k < bytes.len()
            invariant
                k <= bytes@.len(),
                elements@ == bytes@.take(k as int),
            decreases bytes@.len() - k,
        {
            elements.push(bytes[k]);
            k += 1;
        }
        proof {
            assert(elements@ =~= bytes@);
        }
        ByteArray { elements }
    }
}

/// The UTF-16 code units a string's characters encode to, terminator not
/// included.
pub uninterp spec fn utf16_units(s: Seq<char>) -> Seq<u16>;

/// Whether a string is free of nul characters anywhere but its final
/// position. The native wide-string conversion accepts exactly such
/// strings: a final nul merely coincides with the terminator it appends.
pub open spec fn interior_nul_free(s: Seq<char>) -> bool {
    forall|i: int| 0 <= i < s.len() - 1 ==> s[i] != '\u{0}'
}

/// The code units the native wide-string conversion hands on for a
/// string: its UTF-16 encoding, with a final nul character folded into
/// the terminator and so dropped.
pub open spec fn wide_payload(s: Seq<char>) -> Seq<u16> {
    if s.len() > 0 && s.last() == '\u{0}' {
        utf16_units(s.drop_last())
    } else {
        utf16_units(s)
    }
}

/// Relies on widestring::U16CString::from_str — it encodes the string as
/// UTF-16 with an appended nul terminator and returns an error exactly
/// when a nul value sits anywhere but the final position — and on
/// U16CString::into_vec, which returns the encoded units without the
/// terminator.
#[verifier::external_body]
fn encode_wide(s: &String) -> (r: Option<Vec<u16>>)
    ensures
        r is Some <==> interior_nul_free(s@),
        r matches Some(v) ==> v@ == wide_payload(s@),
        r matches Some(v) ==> (!(s@.len() > 0 && s@.last() == '\u{0}') ==> v@ == utf16_units(s@)),
{
    match widestring::U16CString::from_str(s) {
        Ok(c) => Some(c.into_vec()),
        Err(_) => None,
    }
}

/// Whether every string of an argument list is free of interior nul
/// characters, so that each can cross the wide-string conversion.
pub open spec fn args_interior_nul_free(args: Seq<String>) -> bool {
    forall|i: int| 0 <= i < args.len() ==> interior_nul_free(#[trigger] args[i]@)
}

/// The host's native array of wide strings (the nested string array of the
/// calling convention), positional from index zero.
#[derive(Debug)]
pub struct BstrArray {
    /// The array's elements, positionally; each is one argument's wide
    /// encoding.
    pub elements: Vec<Vec<u16>>,
}

/// Whether a marshalled string array represents an argument list: one
/// element per argument, in the original order, each holding exactly the
/// argument's wide encoding.
pub open spec fn bstr_array_models(b: BstrArray, args: Seq<String>) -> bool {
    &&& b.elements@.len() == args.len()
    &&& forall|i: int| 0 <= i < args.len() ==> (#[trigger] b.elements@[i])@ == wide_payload(
        args[i]@,
    )
}

/// Marshals an argument list into the host's native string array: exactly
/// one element per argument, positionally, each the argument's wide
/// encoding. Returns nothing exactly when some argument cannot cross the
/// wide-string conversion because of an interior nul character.
pub fn marshal_args(args: &Vec<String>) -> (r: Option<BstrArray>)
    ensures
        r is Some <==> args_interior_nul_free(args@),
        r matches Some(b) ==> bstr_array_models(b, args@),
{
    let mut elements: Vec<Vec<u16>> = Vec::new();
    let mut k: usize = 0;
    while k < args.len()
        invariant
            k <= args@.len(),
            elements@.len() == k,
            forall|i: int| 0 <= i < k ==> interior_nul_free(#[trigger] args@[i]@),
            forall|i: int| 0 <= i < k ==> (#[trigger] elements@[i])@ == wide_payload(args@[i]@),
        decreases args@.len() - k,
    {
        match encode_wide(&args[k]) {
            Some(v) => {
                elements.push(v);
            },
            None => {
                proof {
                    assert(!interior_nul_free(args@[k as int]@));
                }
                return None;
            },
        }
        k += 1;
    }
    Some(BstrArray { elements })
}

/// Variant-type tag of a null value.
pub const VT_NULL_TAG: u16 = 1;

/// Variant-type tag of a generic variant, the element type of the
/// parameter array handed to the entry routine.
pub const VT_VARIANT_TAG: u16 = 12;

/// Variant-type tag of a native wide string.
pub const VT_BSTR_TAG: u16 = 8;

/// Variant-type flag marking an array of the tagged element type.
pub const VT_ARRAY_FLAG: u16 = 0x2000;

/// A tagged variant of the host's calling convention: the self-describing
/// value used to pass loosely-typed arguments across the reflective
/// invocation boundary.
#[derive(Debug)]
pub enum Variant {
    /// A null value, used as the receiver of a static entry routine.
    Null,
    /// An array of wide strings, tagged as such.
    StringArray(BstrArray),
}

impl Variant {
    /// The variant-type tag the host reads to interpret the value.
    pub open spec fn tag(self) -> u16 {
        match self {
            Variant::Null => VT_NULL_TAG,
            Variant::StringArray(_) => VT_ARRAY_FLAG | VT_BSTR_TAG,
        }
    }

    /// The variant-type tag the host reads to interpret the value.
    pub fn tag_of(&self) -> (t: u16)
        ensures
            t == self.tag(),
    {
        match self {
            Variant::Null => VT_NULL_TAG,
            Variant::StringArray(_) => VT_ARRAY_FLAG | VT_BSTR_TAG,
        }
    }
}

/// The single-element native parameter array of generic variants that the
/// reflective invocation takes.
#[derive(Debug)]
pub struct ParamArray {
    /// The array's elements, positionally.
    pub params: Vec<Variant>,
}

/// Builds the parameter array for an entry-routine invocation: one
/// element, a variant tagged as an array of wide strings, wrapping the
/// marshalled argument list. Returns nothing exactly when some argument
/// holds an interior nul character.
pub fn build_entry_params(args: &Vec<String>) -> (r: Option<ParamArray>)
    ensures
        r is Some <==> args_interior_nul_free(args@),
        r matches Some(p) ==> (p.params@.len() == 1 && (p.params@[0] matches Variant::StringArray(b)
            && bstr_array_models(b, args@))),
{
    let arr = match marshal_args(args) {
        Some(b) => b,
        None => {
            return None;
        },
    };
    let mut params: Vec<Variant> = Vec::new();
    params.push(Variant::StringArray(arr));
    Some(ParamArray { params })
}

/// What the driver must do after the entry-invocation decision: nothing,
/// or make the reflective invocation call with the given parameter array
/// and a null receiver.
#[derive(Debug)]
pub enum InvokePlan {
    /// Do not invoke the entry routine at all.
    Skip,
    /// Invoke the entry routine with this parameter array.
    Call(ParamArray),
}

impl Assembly {
    /// Decision core of entry-point invocation. `entry_status` is the
    /// status of resolving the module's designated entry routine; a
    /// non-success status fails with `EntrypointResolutionError`. Without
    /// an argument list the entry routine is not invoked at all; with one,
    /// the arguments are marshalled positionally into the host's
    /// array/variant representation and the driver is told to invoke.
    /// Arguments with interior nul characters cannot cross the native
    /// wide-string conversion and are ruled out by precondition.
    pub fn invoke_entry(&self, entry_status: i32, args: Option<&Vec<String>>) -> (r: Result<
        InvokePlan,
        CLRLoadError,
    >)
        requires
            args matches Some(a) ==> args_interior_nul_free(a@),
        ensures
            entry_status != 0 ==> r == Err::<InvokePlan, CLRLoadError>(
                CLRLoadError::EntrypointResolutionError,
            ),
            entry_status == 0 && args is None ==> (r matches Ok(plan) && plan is Skip),
            entry_status == 0 ==> (args matches Some(a) ==> (r matches Ok(plan)
                && plan matches InvokePlan::Call(p) && p.params@.len() == 1 && (
            p.params@[0] matches Variant::StringArray(b) && bstr_array_models(b, a@)))),
    {
        if entry_status != 0 {
            return Err(CLRLoadError::EntrypointResolutionError);
        }
        match args {
            None => Ok(InvokePlan::Skip),
            Some(list) => {
                match build_entry_params(list) {
                    Some(p) => Ok(InvokePlan::Call(p)),
                    None => {
                        // ruled out by the precondition: every argument is
                        // free of interior nul characters
                        proof {
                            assert(false);
                        }
                        Err(CLRLoadError::InvocationError)
                    },
                }
            },
        }
    }
}

/// Decision on the status of the reflective entry invocation. In lenient
/// mode the status is captured but not validated; in strict mode a
/// non-success status surfaces as `InvocationError`.
pub fn check_invocation(strict: bool, invoke_status: i32) -> (r: Result<(), CLRLoadError>)
    ensures
        r == if strict && invoke_status != 0 {
            Err::<(), CLRLoadError>(CLRLoadError::InvocationError)
        } else {
            Ok::<(), CLRLoadError>(())
        },
{
    if strict && invoke_status != 0 {
        return Err(CLRLoadError::InvocationError);
    }
    Ok(())
}

impl AppDomain {
    /// Decision core of module loading: the driver marshalled the image
    /// bytes and called the domain's byte-array load primitive;
    /// `load_status` is that call's status and `assembly_handle` the
    /// module reference it wrote. Surfaces `AssemblyLoadError` exactly on
    /// a non-success status.
    pub fn load(&self, load_status: i32, assembly_handle: usize) -> (r: Result<
        Assembly,
        CLRLoadError,
    >)
        ensures
            r == if load_status != 0 {
                Err::<Assembly, CLRLoadError>(CLRLoadError::AssemblyLoadError)
            } else {
                Ok::<Assembly, CLRLoadError>(Assembly { handle: assembly_handle })
            },
    {
        if load_status != 0 {
            return Err(CLRLoadError::AssemblyLoadError);
        }
        Ok(Assembly { handle: assembly_handle })
    }
}

} // verus!
