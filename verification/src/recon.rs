//! Development-only IL2CPP introspection.
//!
//! Class surfaces (methods with their native offsets, fields, raw static
//! storage) from the hydrated metadata cache, and the direct callers of one
//! function inside the mapped code section.

use vstd::prelude::*;

use crate::arm64::{plan_op, Plan};
use crate::base::TopicId;
use crate::debug_dispatch::DebugTopicRegistration;
use crate::debug_topic::DebugHandlerError;
use crate::error::{HookError, Il2CppError, PluginError};
use crate::host::{AppCtx, TopicParts};
use crate::manager::HostTypes;
use crate::method_slot::{MethodRef, TargetId};
use crate::text::{ends_with_text, same_text};

verus! {

// ---------------------------------------------------------------------------
// Callers
// ---------------------------------------------------------------------------

/// Request of the `recon.callers` topic.
#[derive(Debug, Clone, Copy)]
pub struct CallersQuery {
    /// Static offset (image base relative) of the target function.
    pub rva: u64,
    /// Optional maximum number of reported caller sites (default 64).
    pub limit: Option<usize>,
}

/// Answer of the `recon.callers` topic.
#[derive(Debug)]
pub struct CallersResponse {
    pub image_base: u64,
    pub text_rva: u64,
    pub text_size: u64,
    pub total: usize,
    pub truncated: bool,
    pub caller_rvas: Vec<u64>,
}

/// Callers that are reported where the request does not say how many.
pub const DEFAULT_CALLER_LIMIT: usize = 64;

/// Word `i` of the code at `text_va` is a direct call of `target`.
pub open spec fn calls(text: Seq<u32>, text_va: u64, target: u64, i: int) -> bool {
    crate::arm64::decoded(text[i], (text_va + 4 * i) as u64) == Some(Plan::Bl { target })
}

/// The offsets from `base` of the direct calls of `target` among the first
/// `count` words of the code at `text_va`.
pub open spec fn callers(
    text: Seq<u32>,
    text_va: u64,
    base: u64,
    target: u64,
    count: nat,
) -> Seq<u64>
    decreases count,
{
    if count == 0 {
        Seq::empty()
    } else {
        let before = callers(text, text_va, base, target, (count - 1) as nat);
        if calls(text, text_va, target, count - 1) {
            before.push((text_va + 4 * (count - 1) - base) as u64)
        } else {
            before
        }
    }
}

/// How many callers `query` wants to see.
pub open spec fn caller_limit(query: CallersQuery) -> int {
    match query.limit {
        Some(limit) => limit as int,
        None => DEFAULT_CALLER_LIMIT as int,
    }
}

/// `response` reports the callers that `query` asks for: their number, and as
/// many of them as are wanted, first ones first.
pub open spec fn reports(
    response: CallersResponse,
    query: CallersQuery,
    base: u64,
    text_va: u64,
    text: Seq<u32>,
) -> bool {
    let all = callers(text, text_va, base, (base + query.rva) as u64, text.len());
    let limit = caller_limit(query);
    &&& response.image_base == base
    &&& response.text_rva == text_va - base
    &&& response.text_size == 4 * text.len()
    &&& response.total == all.len()
    &&& response.truncated == (all.len() > limit)
    &&& response.caller_rvas@ == all.take(
        if all.len() > limit {
            limit
        } else {
            all.len() as int
        },
    )
}

/// Finds the direct `bl` callers of one function in the code section `text`,
/// which is mapped at `text_va` in the image at `base`.
pub fn find_callers(query: &CallersQuery, base: u64, text_va: u64, text: &[u32]) -> (r:
    CallersResponse)
    requires
        base + query.rva <= u64::MAX,
        base <= text_va,
        text_va + 4 * text.len() <= u64::MAX,
    ensures
        reports(r, *query, base, text_va, text@),
{
    let target: u64 = base + query.rva;
    let limit: usize = match query.limit {
        Some(limit) => limit,
        None => DEFAULT_CALLER_LIMIT,
    };
    let mut total: usize = 0;
    let mut truncated: bool = false;
    let mut caller_rvas: Vec<u64> = Vec::new();
    let mut index: usize = 0;
    assert(caller_rvas@ =~= callers(text@, text_va, base, target, 0).take(0));
    while index < text.len()
        invariant
            index <= text.len(),
            base <= text_va,
            text_va + 4 * text.len() <= u64::MAX,
            total <= index,
            ({
                let found = callers(text@, text_va, base, target, index as nat);
                &&& total == found.len()
                &&& truncated == (found.len() > limit)
                &&& caller_rvas@ == found.take(
                    if found.len() > limit {
                        limit as int
                    } else {
                        found.len() as int
                    },
                )
            }),
        decreases text.len() - index,
    {
        let ghost before = callers(text@, text_va, base, target, index as nat);
        let ghost after = callers(text@, text_va, base, target, (index + 1) as nat);
        let pc: u64 = text_va + (index as u64) * 4;
        let called: bool = match plan_op(text[index], pc) {
            Ok(Plan::Bl { target: to }) => to == target,
            _ => false,
        };
        assert(called == calls(text@, text_va, target, index as int));
        if called {
            total = total + 1;
            if caller_rvas.len() < limit {
                caller_rvas.push(pc - base);
                assert(caller_rvas@ =~= after.take(after.len() as int));
            } else {
                truncated = true;
                assert(caller_rvas@ =~= after.take(limit as int));
            }
        }
        index = index + 1;
    }
    CallersResponse {
        image_base: base,
        text_rva: text_va - base,
        text_size: (text.len() as u64) * 4,
        total,
        truncated,
        caller_rvas,
    }
}

/// Answers the `recon.callers` topic, given where the image and its code lie,
/// if they are known.
pub fn callers_query_handler(
    request: &CallersQuery,
    image_base: Option<u64>,
    text_section: Option<(u64, &[u32])>,
) -> (r: Result<CallersResponse, String>)
    requires
        image_base matches Some(base) ==> base + request.rva <= u64::MAX && (
        text_section matches Some(section) ==> base <= section.0 && section.0 + 4
            * section.1.len() <= u64::MAX),
    ensures
        match (image_base, text_section) {
            (None, _) => r is Err && r->Err_0@ == "UnityFramework image base unknown"@,
            (Some(_), None) => r is Err && r->Err_0@ == "__TEXT.__text not found in the image"@,
            (Some(base), Some(section)) => r is Ok && reports(
                r->Ok_0,
                *request,
                base,
                section.0,
                section.1@,
            ),
        },
{
    let base: u64 = match image_base {
        Some(base) => base,
        None => return Err("UnityFramework image base unknown".to_owned()),
    };
    match text_section {
        Some((text_va, text)) => Ok(find_callers(request, base, text_va, text)),
        None => Err("__TEXT.__text not found in the image".to_owned()),
    }
}

/// Every reported caller is a direct call of the function asked for, and lies
/// in the code section; callers are reported in ascending order.
pub proof fn callers_are_calls(
    text: Seq<u32>,
    text_va: u64,
    base: u64,
    target: u64,
    count: nat,
    k: int,
)
    requires
        count <= text.len(),
        base <= text_va,
        text_va + 4 * text.len() <= u64::MAX,
        0 <= k < callers(text, text_va, base, target, count).len(),
    ensures
        exists|i: int|
            0 <= i < count && #[trigger] calls(text, text_va, target, i) && base + callers(
                text,
                text_va,
                base,
                target,
                count,
            )[k] == text_va + 4 * i,
        k > 0 ==> callers(text, text_va, base, target, count)[k - 1] < callers(
            text,
            text_va,
            base,
            target,
            count,
        )[k],
    decreases count,
{
    let before = callers(text, text_va, base, target, (count - 1) as nat);
    if calls(text, text_va, target, count - 1) && k == before.len() {
        assert(calls(text, text_va, target, count - 1));
        if k > 0 {
            callers_are_calls(text, text_va, base, target, (count - 1) as nat, k - 1);
        }
    } else {
        callers_are_calls(text, text_va, base, target, (count - 1) as nat, k);
    }
}

// ---------------------------------------------------------------------------
// Class surfaces
// ---------------------------------------------------------------------------

/// Request of the `recon.class` topic.
#[derive(Debug)]
pub struct ClassQuery {
    pub assembly: String,
    pub class: String,
}

/// One method as the metadata cache knows it.
pub struct CachedMethod {
    pub name: String,
    pub param_count: u8,
    pub param_types: Vec<String>,
    pub return_type: String,
    pub is_static: bool,
    pub is_generic: bool,
    pub is_inflated: bool,
    /// Address of the `MethodInfo`.
    pub address: usize,
    /// Address of the compiled function; 0 where it is not compiled.
    pub va: u64,
}

/// One field as the metadata cache knows it.
pub struct CachedField {
    pub name: String,
    pub field_type: String,
    pub is_static: bool,
    pub offset: i32,
}

/// One class as the metadata cache knows it.
pub struct CachedClass {
    pub assembly: String,
    pub namespace: String,
    pub name: String,
    pub address: usize,
    pub static_field_data: usize,
    pub methods: Vec<CachedMethod>,
    pub fields: Vec<CachedField>,
}

/// What looking a class up in the metadata cache gave.
pub enum CacheLookup {
    NoAssembly,
    NoClass,
    Class(CachedClass),
}

/// One method of a queried class, with its native code location.
#[derive(Debug)]
pub struct MethodSurface {
    pub name: String,
    pub param_count: u32,
    /// Parameter type names in declaration order.
    pub param_types: Vec<String>,
    pub return_type: String,
    pub is_static: bool,
    /// Compiled function address, ASLR slide included.
    pub va: u64,
    /// Static offset from the image base.
    pub rva: u64,
}

/// One field of a queried class.
#[derive(Debug)]
pub struct FieldSurface {
    pub name: String,
    pub field_type: String,
    pub is_static: bool,
    pub offset: i32,
}

/// Raw 8-byte view of one static field's storage slot.
#[derive(Debug)]
pub struct StaticValue {
    pub name: String,
    /// Raw word at `static_field_data + offset`.
    pub raw: u64,
}

/// Complete surface of one queried class.
#[derive(Debug)]
pub struct ClassSurface {
    pub assembly: String,
    pub full_name: String,
    pub class_address: usize,
    pub static_field_data: usize,
    pub image_base: usize,
    pub methods: Vec<MethodSurface>,
    pub fields: Vec<FieldSurface>,
    pub statics: Vec<StaticValue>,
}

/// The texts of `names`.
pub open spec fn texts(names: Seq<String>) -> Seq<Seq<char>> {
    names.map_values(|name: String| name@)
}

/// Offset of `va` in the image at `base`; 0 for an address before it.
pub open spec fn offset_from(va: u64, base: usize) -> u64 {
    if va >= base {
        (va - base) as u64
    } else {
        0
    }
}

/// `surface` says what the cache knows of `method`.
pub open spec fn shows_method(surface: MethodSurface, method: CachedMethod, base: usize) -> bool {
    &&& surface.name@ == method.name@
    &&& surface.param_count == method.param_count
    &&& texts(surface.param_types@) == texts(method.param_types@)
    &&& surface.return_type@ == method.return_type@
    &&& surface.is_static == method.is_static
    &&& surface.va == method.va
    &&& surface.rva == offset_from(method.va, base)
}

/// `surface` says what the cache knows of `field`.
pub open spec fn shows_field(surface: FieldSurface, field: CachedField) -> bool {
    &&& surface.name@ == field.name@
    &&& surface.field_type@ == field.field_type@
    &&& surface.is_static == field.is_static
    &&& surface.offset == field.offset
}

fn clone_texts(names: &Vec<String>) -> (r: Vec<String>)
    ensures
        texts(r@) == texts(names@),
{
    let mut copies: Vec<String> = Vec::new();
    let mut index: usize = 0;
    while index < names.len()
        invariant
            index <= names.len(),
            copies.len() == index,
            forall|i: int| 0 <= i < copies.len() ==> #[trigger] copies@[i]@ == names@[i]@,
        decreases names.len() - index,
    {
        copies.push(names[index].clone());
        index = index + 1;
    }
    assert(texts(copies@) =~= texts(names@));
    copies
}

fn method_surface(method: &CachedMethod, base: usize) -> (r: MethodSurface)
    ensures
        shows_method(r, *method, base),
{
    let va: u64 = method.va;
    MethodSurface {
        name: method.name.clone(),
        param_count: method.param_count as u32,
        param_types: clone_texts(&method.param_types),
        return_type: method.return_type.clone(),
        is_static: method.is_static,
        va,
        rva: if va >= base as u64 {
            va - base as u64
        } else {
            0
        },
    }
}

/// The storage of `field` is read: it is static and its offset is valid.
pub open spec fn is_read(field: CachedField) -> bool {
    field.is_static && field.offset >= 0
}

/// The address of every field that is read fits the address space.
pub open spec fn statics_fit(static_data: usize, fields: Seq<CachedField>) -> bool {
    forall|i: int|
        0 <= i < fields.len() && is_read(fields[i]) ==> static_data + (
        #[trigger] fields[i]).offset <= usize::MAX
}

/// The word of a field in the static storage.
pub open spec fn static_address(static_data: usize, field: CachedField) -> usize {
    (static_data + field.offset) as usize
}

/// The words of the fields that are read can be read, and no others need to be.
pub open spec fn statics_readable<F: Fn(usize) -> u64>(
    static_data: usize,
    fields: Seq<CachedField>,
    read: F,
) -> bool {
    forall|i: int|
        static_data != 0 && 0 <= i < fields.len() && is_read(fields[i]) ==> read.requires(
            (static_address(static_data, #[trigger] fields[i]),),
        )
}

/// Which of the first `count` fields are read, in order.
pub open spec fn read_fields(fields: Seq<CachedField>, count: nat) -> Seq<int>
    decreases count,
{
    if count == 0 {
        Seq::empty()
    } else {
        let before = read_fields(fields, (count - 1) as nat);
        if is_read(fields[count - 1]) {
            before.push(count - 1)
        } else {
            before
        }
    }
}

/// `statics` are the raw words of the fields that are read, each read at its
/// offset in the static storage; none where there is no storage.
pub open spec fn shows_statics<F: Fn(usize) -> u64>(
    statics: Seq<StaticValue>,
    static_data: usize,
    fields: Seq<CachedField>,
    read: F,
) -> bool {
    if static_data == 0 {
        statics.len() == 0
    } else {
        let picked = read_fields(fields, fields.len());
        &&& statics.len() == picked.len()
        &&& forall|k: int|
            0 <= k < statics.len() ==> {
                &&& (#[trigger] statics[k]).name@ == fields[picked[k]].name@
                &&& read.ensures(
                    (static_address(static_data, fields[picked[k]]),),
                    statics[k].raw,
                )
            }
    }
}

/// Reads one raw word per static field with a valid offset. Malformed offsets
/// and null storage are skipped, never guessed.
pub fn read_statics<F: Fn(usize) -> u64>(
    static_data: usize,
    fields: &Vec<CachedField>,
    read: &F,
) -> (r: Vec<StaticValue>)
    requires
        statics_fit(static_data, fields@),
        statics_readable(static_data, fields@, *read),
    ensures
        shows_statics(r@, static_data, fields@, *read),
{
    let mut statics: Vec<StaticValue> = Vec::new();
    if static_data == 0 {
        return statics;
    }
    let mut index: usize = 0;
    while index < fields.len()
        invariant
            index <= fields.len(),
            static_data != 0,
            statics_fit(static_data, fields@),
            statics_readable(static_data, fields@, *read),
            ({
                let picked = read_fields(fields@, index as nat);
                &&& statics.len() == picked.len()
                &&& forall|k: int|
                    0 <= k < statics.len() ==> {
                        &&& (#[trigger] statics@[k]).name@ == fields@[picked[k]].name@
                        &&& read.ensures(
                            (static_address(static_data, fields@[picked[k]]),),
                            statics@[k].raw,
                        )
                    }
            }),
        decreases fields.len() - index,
    {
        let field = &fields[index];
        if field.is_static && field.offset >= 0 {
            let addr: usize = static_data + field.offset as usize;
            assert(addr == static_address(static_data, fields@[index as int]));
            let raw: u64 = read(addr);
            statics.push(StaticValue { name: field.name.clone(), raw });
        }
        index = index + 1;
    }
    statics
}

fn joined_name(left: &str, separator: &str, right: &str) -> (r: String)
    ensures
        r@ == left@ + separator@ + right@,
{
    left.to_owned().concat(separator).concat(right)
}

/// Why a class was not found.
pub open spec fn not_found(lookup: CacheLookup, assembly: Seq<char>, class: Seq<char>) -> Option<
    Seq<char>,
> {
    match lookup {
        CacheLookup::NoAssembly => Some(assembly),
        CacheLookup::NoClass => Some(assembly + "::"@ + class),
        CacheLookup::Class(_) => None,
    }
}

fn found_class<'a>(lookup: &'a CacheLookup, assembly: &str, class: &str) -> (r: Result<
    &'a CachedClass,
    Il2CppError,
>)
    ensures
        match not_found(*lookup, assembly@, class@) {
            Some(text) => r is Err && r->Err_0 is ClassNotFound && r->Err_0->ClassNotFound_0@
                == text,
            None => r is Ok && *lookup == CacheLookup::Class(*r->Ok_0),
        },
{
    match lookup {
        CacheLookup::NoAssembly => Err(Il2CppError::ClassNotFound(assembly.to_owned())),
        CacheLookup::NoClass => Err(
            Il2CppError::ClassNotFound(joined_name(assembly, "::", class)),
        ),
        CacheLookup::Class(class) => Ok(class),
    }
}

/// Surface of one class, given what the metadata cache has of it, the base of
/// the image if it is known, and a way to read one word of memory.
pub fn class_surface<F: Fn(usize) -> u64>(
    query: &ClassQuery,
    lookup: &CacheLookup,
    image_base: Option<usize>,
    read: &F,
) -> (r: Result<ClassSurface, Il2CppError>)
    requires
        lookup matches CacheLookup::Class(class) ==> statics_fit(
            class.static_field_data,
            class.fields@,
        ) && statics_readable(class.static_field_data, class.fields@, *read),
    ensures
        match *lookup {
            CacheLookup::Class(class) => {
                let base = match image_base {
                    Some(base) => base,
                    None => 0,
                };
                &&& r is Ok
                &&& r->Ok_0.assembly@ == class.assembly@
                &&& r->Ok_0.full_name@ == class.namespace@ + "."@ + class.name@
                &&& r->Ok_0.class_address == class.address
                &&& r->Ok_0.static_field_data == class.static_field_data
                &&& r->Ok_0.image_base == base
                &&& r->Ok_0.methods.len() == class.methods.len()
                &&& forall|i: int|
                    0 <= i < class.methods.len() ==> shows_method(
                        #[trigger] r->Ok_0.methods[i],
                        class.methods[i],
                        base,
                    )
                &&& r->Ok_0.fields.len() == class.fields.len()
                &&& forall|i: int|
                    0 <= i < class.fields.len() ==> shows_field(
                        #[trigger] r->Ok_0.fields[i],
                        class.fields[i],
                    )
                &&& shows_statics(
                    r->Ok_0.statics@,
                    class.static_field_data,
                    class.fields@,
                    *read,
                )
            },
            _ => {
                &&& r is Err && r->Err_0 is ClassNotFound
                &&& r->Err_0->ClassNotFound_0@ == not_found(
                    *lookup,
                    query.assembly@,
                    query.class@,
                )->Some_0
            },
        },
{
    let class = match found_class(lookup, query.assembly.as_str(), query.class.as_str()) {
        Ok(class) => class,
        Err(error) => return Err(error),
    };
    let base: usize = match image_base {
        Some(base) => base,
        None => 0,
    };
    let mut methods: Vec<MethodSurface> = Vec::new();
    let mut index: usize = 0;
    while index < class.methods.len()
        invariant
            index <= class.methods.len(),
            methods.len() == index,
            forall|i: int|
                0 <= i < methods.len() ==> shows_method(
                    #[trigger] methods[i],
                    class.methods[i],
                    base,
                ),
        decreases class.methods.len() - index,
    {
        methods.push(method_surface(&class.methods[index], base));
        index = index + 1;
    }
    let mut fields: Vec<FieldSurface> = Vec::new();
    index = 0;
    while index < class.fields.len()
        invariant
            index <= class.fields.len(),
            fields.len() == index,
            forall|i: int|
                0 <= i < fields.len() ==> shows_field(#[trigger] fields[i], class.fields[i]),
        decreases class.fields.len() - index,
    {
        let field = &class.fields[index];
        fields.push(
            FieldSurface {
                name: field.name.clone(),
                field_type: field.field_type.clone(),
                is_static: field.is_static,
                offset: field.offset,
            },
        );
        index = index + 1;
    }
    Ok(
        ClassSurface {
            assembly: class.assembly.clone(),
            full_name: joined_name(class.namespace.as_str(), ".", class.name.as_str()),
            class_address: class.address,
            static_field_data: class.static_field_data,
            image_base: base,
            methods,
            fields,
            statics: read_statics(class.static_field_data, &class.fields, read),
        },
    )
}

/// How the parameters of a cached method are counted.
#[derive(Debug, Clone, Copy, PartialEq, Eq, Structural)]
pub enum Arity {
    /// By the count in the metadata.
    Declared,
    /// By the list of the arguments.
    Listed,
}

/// The cached method is called `name` and takes `count` parameters.
pub open spec fn is_candidate(
    method: CachedMethod,
    name: Seq<char>,
    count: u32,
    arity: Arity,
) -> bool {
    method.name@ == name && match arity {
        Arity::Declared => method.param_count == count,
        Arity::Listed => method.param_types.len() == count,
    }
}

/// Which of the first `upto` methods are candidates, in order.
pub open spec fn candidates(
    methods: Seq<CachedMethod>,
    name: Seq<char>,
    count: u32,
    arity: Arity,
    upto: nat,
) -> Seq<int>
    decreases upto,
{
    if upto == 0 {
        Seq::empty()
    } else {
        let before = candidates(methods, name, count, arity, (upto - 1) as nat);
        if is_candidate(methods[upto - 1], name, count, arity) {
            before.push(upto - 1)
        } else {
            before
        }
    }
}

/// The candidate, where there is exactly one.
pub open spec fn only_candidate(
    methods: Seq<CachedMethod>,
    name: Seq<char>,
    count: u32,
    arity: Arity,
) -> Option<int> {
    let found = candidates(methods, name, count, arity, methods.len());
    if found.len() == 1 {
        Some(found[0])
    } else {
        None
    }
}

fn unique_method(methods: &Vec<CachedMethod>, name: &str, count: u32, arity: Arity) -> (r: Option<
    usize,
>)
    ensures
        match only_candidate(methods@, name@, count, arity) {
            Some(index) => r is Some && r->Some_0 == index && 0 <= index < methods.len(),
            None => r is None,
        },
{
    let mut found: Option<usize> = None;
    let mut total: usize = 0;
    let mut index: usize = 0;
    while index < methods.len()
        invariant
            index <= methods.len(),
            total <= index,
            ({
                let so_far = candidates(methods@, name@, count, arity, index as nat);
                &&& total == so_far.len()
                &&& found is Some <==> total > 0
                &&& found is Some ==> found->Some_0 == so_far.last() && 0 <= so_far.last() < index
            }),
        decreases methods.len() - index,
    {
        let fits: bool = match arity {
            Arity::Declared => methods[index].param_count as u32 == count,
            Arity::Listed => methods[index].param_types.len() as u64 == count as u64,
        };
        if fits && same_text(methods[index].name.as_str(), name) {
            found = Some(index);
            total = total + 1;
        }
        index = index + 1;
    }
    if total == 1 {
        found
    } else {
        None
    }
}

/// Address of one method's compiled function by exact name. `Ok(None)` when the
/// method is absent, ambiguous or not compiled: callers never guess.
pub fn resolve_method_va(
    query: &ClassQuery,
    lookup: &CacheLookup,
    method: &str,
    param_count: u32,
) -> (r: Result<Option<u64>, Il2CppError>)
    ensures
        match *lookup {
            CacheLookup::Class(class) => {
                &&& r is Ok
                &&& r->Ok_0 == match only_candidate(
                    class.methods@,
                    method@,
                    param_count,
                    Arity::Declared,
                ) {
                    Some(index) => if class.methods@[index].va != 0 {
                        Some(class.methods@[index].va)
                    } else {
                        None
                    },
                    None => None,
                }
            },
            _ => {
                &&& r is Err && r->Err_0 is ClassNotFound
                &&& r->Err_0->ClassNotFound_0@ == not_found(
                    *lookup,
                    query.assembly@,
                    query.class@,
                )->Some_0
            },
        },
{
    let class = match found_class(lookup, query.assembly.as_str(), query.class.as_str()) {
        Ok(class) => class,
        Err(error) => return Err(error),
    };
    match unique_method(&class.methods, method, param_count, Arity::Declared) {
        Some(index) => if class.methods[index].va != 0 {
            Ok(Some(class.methods[index].va))
        } else {
            Ok(None)
        },
        None => Ok(None),
    }
}

// ---------------------------------------------------------------------------
// Hook targets
// ---------------------------------------------------------------------------

/// The `methodPointer` field is the first field of `MethodInfo` in the
/// validated layout.
pub const METHOD_POINTER_OFFSET: usize = 0;

/// Name under which the class of a target is looked up.
pub fn target_class_name(target: &TargetId) -> (r: String)
    ensures
        r@ == target@.namespace + "."@ + target@.class,
{
    joined_name(target.namespace, ".", target.class)
}

/// `method` is what the metadata cache knows of a target.
pub open spec fn refers_to(method: MethodRef, target: TargetId, cached: CachedMethod) -> bool {
    &&& method.assembly@ == target.assembly@
    &&& method.namespace@ == target.namespace@
    &&& method.class@ == target.class@
    &&& method.method@ == target.method@
    &&& method.param_count == target.param_count
    &&& method.is_static == cached.is_static
    &&& method.return_type@ == cached.return_type@
    &&& texts(method.parameter_types@) == texts(cached.param_types@)
    &&& method.is_generic == cached.is_generic
    &&& method.is_inflated == cached.is_inflated
    &&& method.method_info == cached.address
    &&& method.method_pointer_slot == cached.address
}

/// Resolves a hook target against what the metadata cache has of its class.
/// Fails closed on ambiguity: two overloads with the same name and parameter
/// count are target drift, not a resolvable target.
pub fn resolve_target(target: &TargetId, lookup: &CacheLookup) -> (r: Result<MethodRef, HookError>)
    ensures
        match *lookup {
            CacheLookup::Class(class) => match only_candidate(
                class.methods@,
                target.method@,
                target.param_count,
                Arity::Listed,
            ) {
                None => r is Err && r->Err_0 == HookError::SignatureMismatch,
                Some(index) => if class.methods@[index].address == 0 {
                    r is Err && r->Err_0 == HookError::TargetUnavailable
                } else {
                    r is Ok && refers_to(r->Ok_0, *target, class.methods@[index])
                },
            },
            _ => r is Err && r->Err_0 == HookError::TargetUnavailable,
        },
{
    let class = match lookup {
        CacheLookup::Class(class) => class,
        _ => return Err(HookError::TargetUnavailable),
    };
    let index: usize = match unique_method(
        &class.methods,
        target.method,
        target.param_count,
        Arity::Listed,
    ) {
        Some(index) => index,
        None => return Err(HookError::SignatureMismatch),
    };
    let method = &class.methods[index];
    let method_info: usize = method.address;
    if method_info == 0 {
        return Err(HookError::TargetUnavailable);
    }
    Ok(
        MethodRef {
            assembly: target.assembly.to_owned(),
            namespace: target.namespace.to_owned(),
            class: target.class.to_owned(),
            method: target.method.to_owned(),
            param_count: target.param_count,
            is_static: method.is_static,
            return_type: method.return_type.clone(),
            parameter_types: clone_texts(&method.param_types),
            is_generic: method.is_generic,
            is_inflated: method.is_inflated,
            method_info,
            method_pointer_slot: method_info.wrapping_add(METHOD_POINTER_OFFSET),
        },
    )
}

// ---------------------------------------------------------------------------
// Topics
// ---------------------------------------------------------------------------

/// Name of the topic that a [`ClassQuery`] is sent to.
pub const CLASS_TOPIC: &'static str = "recon.class";

/// Name of the topic that a [`CallersQuery`] is sent to.
pub const CALLERS_TOPIC: &'static str = "recon.callers";

/// Development-only runtime reconnaissance plugin.
#[derive(Debug, Clone, Copy)]
pub struct ReconPlugin;

/// The two topics were registered, `recon.class` first; where that failed the
/// other was not.
pub open spec fn recon_built<
    H: HostTypes,
    P,
    D,
    G: FnOnce(DebugTopicRegistration<P, D>) -> Result<TopicId, PluginError>,
    S: FnOnce(DebugTopicRegistration<P, D>) -> Result<TopicId, PluginError>,
>(
    before: AppCtx<H>,
    last: AppCtx<H>,
    class: TopicParts<D, G, H::Update>,
    callers: TopicParts<D, S, H::Update>,
    r: Result<(), PluginError>,
) -> bool {
    exists|middle: AppCtx<H>, first: Result<(), PluginError>|
        {
            &&& #[trigger] middle.topic_registered::<P, D, G>(
                before,
                CLASS_TOPIC,
                class.decode,
                false,
                class.register,
                class.system,
                first,
            )
            &&& crate::host::chained(
                first,
                middle,
                last,
                last.topic_registered::<P, D, S>(
                    middle,
                    CALLERS_TOPIC,
                    callers.decode,
                    false,
                    callers.register,
                    callers.system,
                    r,
                ),
                r,
            )
        }
}

impl ReconPlugin {
    /// Display name used by the inventory and observability events.
    pub fn name(&self) -> (r: &'static str)
        ensures
            r@ == "recon"@,
    {
        "recon"
    }

    /// Registers the two topics.
    pub fn build<
        H: HostTypes,
        P,
        D,
        G: FnOnce(DebugTopicRegistration<P, D>) -> Result<TopicId, PluginError>,
        S: FnOnce(DebugTopicRegistration<P, D>) -> Result<TopicId, PluginError>,
    >(
        &self,
        ctx: &mut AppCtx<H>,
        class: TopicParts<D, G, H::Update>,
        callers: TopicParts<D, S, H::Update>,
    ) -> (r: Result<(), PluginError>)
        requires
            old(ctx).wf(),
            forall|registration: DebugTopicRegistration<P, D>| #[trigger]
                class.register.requires((registration,)),
            forall|registration: DebugTopicRegistration<P, D>| #[trigger]
                callers.register.requires((registration,)),
        ensures
            recon_built::<H, P, D, G, S>(*old(ctx), *final(ctx), class, callers, r),
    {
        let first = ctx.register_main_debug::<P, D, G>(
            CLASS_TOPIC,
            class.decode,
            class.register,
            class.system,
        );
        let ghost middle = *ctx;
        let ghost outcome = first;
        assert(middle.topic_registered::<P, D, G>(
            *old(ctx),
            CLASS_TOPIC,
            class.decode,
            false,
            class.register,
            class.system,
            outcome,
        ));
        match first {
            Ok(()) => ctx.register_main_debug::<P, D, S>(
                CALLERS_TOPIC,
                callers.decode,
                callers.register,
                callers.system,
            ),
            Err(error) => Err(error),
        }
    }
}

/// Answers the `recon.class` topic with what [`class_surface`] found: a class
/// that is not there is an answer too, by the text of the error.
pub fn class_query_handler(found: Result<ClassSurface, Il2CppError>) -> (r: Result<
    Result<ClassSurface, String>,
    DebugHandlerError,
>)
    ensures
        r is Ok,
        match found {
            Ok(surface) => r->Ok_0 is Ok && r->Ok_0->Ok_0 == surface,
            Err(error) => r->Ok_0 is Err && r->Ok_0->Err_0@ == error.text(),
        },
{
    match found {
        Ok(surface) => Ok(Ok(surface)),
        Err(error) => Ok(Err(error.message())),
    }
}

/// One image of the process, as the dynamic loader lists it.
#[derive(Debug)]
pub struct MappedImage {
    pub path: Option<String>,
    /// Address of the header; 0 where there is none.
    pub header: usize,
}

/// The image is the mapped image of the game.
pub open spec fn is_game_image(image: MappedImage) -> bool {
    &&& image.path is Some
    &&& crate::text::is_suffix(image.path->Some_0@, "UnityFramework"@)
    &&& image.header != 0
}

/// `r` is the header of the first of `images` that is the game's.
pub open spec fn is_first_header(images: Seq<MappedImage>, r: Option<usize>) -> bool {
    match r {
        Some(header) => exists|i: int|
            {
                &&& 0 <= i < images.len()
                &&& is_game_image(#[trigger] images[i])
                &&& images[i].header == header
                &&& forall|k: int| 0 <= k < i ==> !is_game_image(#[trigger] images[k])
            },
        None => forall|k: int| 0 <= k < images.len() ==> !is_game_image(#[trigger] images[k]),
    }
}

/// The header of the first mapped image of the game.
pub fn game_image(images: &Vec<MappedImage>) -> (r: Option<usize>)
    ensures
        is_first_header(images@, r),
{
    let mut i: usize = 0;
    while i < images.len()
        invariant
            i <= images.len(),
            forall|k: int| 0 <= k < i ==> !is_game_image(#[trigger] images[k]),
        decreases images.len() - i,
    {
        if let Some(path) = &images[i].path {
            if ends_with_text(path.as_str(), "UnityFramework") && images[i].header != 0 {
                assert(is_game_image(images[i as int]));
                return Some(images[i].header);
            }
        }
        i += 1;
    }
    None
}

} // verus!
