//! What holds of the callers, surfaces and methods that are found.

use vstd::prelude::*;

use crate::debug_topic::DebugHandlerError;
use crate::error::{HookError, Il2CppError};
use crate::method_slot::{MethodRef, TargetId};
use crate::recon::{
    callers_query_handler, class_query_handler, class_surface, find_callers, game_image,
    read_statics, resolve_method_va, resolve_target, target_class_name, Arity, CacheLookup,
    CachedField, CachedMethod, CallersQuery, CallersResponse, ClassQuery, ClassSurface,
    MappedImage, StaticValue,
};

verus! {

// ---------------------------------------------------------------------------
// Callers
// ---------------------------------------------------------------------------

/// `sites` are the words of the code at `text_va` that call `target`, first
/// ones first: every word that is a `bl` to it, and no other.
pub open spec fn are_call_sites(
    sites: Seq<int>,
    text: Seq<u32>,
    text_va: int,
    target: int,
) -> bool {
    &&& forall|i: int|
        0 <= i < text.len() ==> (crate::machine::is_call(#[trigger] text[i])
            && crate::machine::branch_target(text[i], text_va + 4 * i) == target
            <==> sites.contains(i))
    &&& forall|k: int| 0 <= k < sites.len() ==> 0 <= #[trigger] sites[k] < text.len()
    &&& forall|j: int, k: int| 0 <= j < k < sites.len() ==> sites[j] < sites[k]
}

/// What was found among the first `count` words.
proof fn lemma_sites(text: Seq<u32>, text_va: u64, base: u64, target: u64, count: nat) -> (sites:
    Seq<int>)
    requires
        count <= text.len(),
        base <= text_va,
        text_va + 4 * text.len() <= u64::MAX,
    ensures
        are_call_sites(sites, text.take(count as int), text_va as int, target as int),
        ({
            let found = crate::recon::callers(text, text_va, base, target, count);
            &&& found.len() == sites.len()
            &&& forall|k: int|
                0 <= k < found.len() ==> #[trigger] found[k] == text_va + 4 * sites[k] - base
        }),
    decreases count,
{
    if count == 0 {
        Seq::empty()
    } else {
        let last = count - 1;
        let before = lemma_sites(text, text_va, base, target, last as nat);
        let shorter = text.take(last);
        let longer = text.take(count as int);
        assert forall|i: int| 0 <= i < last implies shorter[i] == longer[i] by {}
        crate::trampoline_laws::lemma_decoded(text[last], (text_va + 4 * last) as u64);
        let called = crate::machine::is_call(text[last]) && crate::machine::branch_target(
            text[last],
            text_va + 4 * last,
        ) == target;
        assert(called == crate::recon::calls(text, text_va, target, last));
        let sites = if called {
            before.push(last)
        } else {
            before
        };
        assert forall|i: int| 0 <= i < longer.len() implies (crate::machine::is_call(
            #[trigger] longer[i],
        ) && crate::machine::branch_target(longer[i], text_va + 4 * i) == target
            <==> sites.contains(i)) by {
            if i < last {
                assert(shorter[i] == longer[i]);
                if before.contains(i) {
                    let k = choose|k: int| 0 <= k < before.len() && before[k] == i;
                    assert(sites[k] == i);
                }
                if sites.contains(i) {
                    let k = choose|k: int| 0 <= k < sites.len() && sites[k] == i;
                    assert(before[k] == i);
                }
            } else if called {
                assert(sites[before.len() as int] == i);
            }
        }
        sites
    }
}

/// The callers that are reported are the calls of the function that was asked
/// for, all of them and no others. Their number is the number of words of the
/// code that are a `bl` to it; as many of them are listed as were asked for,
/// or 64, each at its offset from the image, first ones first; and the list is
/// marked as cut short exactly where some are missing.
pub proof fn every_call_is_reported(
    query: &CallersQuery,
    base: u64,
    text_va: u64,
    text: &[u32],
    r: CallersResponse,
) -> (sites: Seq<int>)
    requires
        call_ensures(find_callers, (query, base, text_va, text), r),
        base + query.rva <= u64::MAX,
        base <= text_va,
        text_va + 4 * text.len() <= u64::MAX,
    ensures
        are_call_sites(sites, text@, text_va as int, base + query.rva),
        r.total == sites.len(),
        ({
            let wanted = match query.limit {
                Some(limit) => limit as int,
                None => 64,
            };
            &&& r.caller_rvas.len() == if sites.len() <= wanted {
                sites.len() as int
            } else {
                wanted
            }
            &&& r.truncated <==> r.caller_rvas.len() < r.total
        }),
        forall|k: int|
            0 <= k < r.caller_rvas.len() ==> base + #[trigger] r.caller_rvas@[k] == text_va + 4
                * sites[k],
        r.image_base == base,
        r.image_base + r.text_rva == text_va,
        r.text_size == 4 * text.len(),
{
    let target = (base + query.rva) as u64;
    let sites = lemma_sites(text@, text_va, base, target, text@.len());
    assert(text@.take(text@.len() as int) =~= text@);
    sites
}

/// The topic answers with the callers in the code of the image, and with an
/// error exactly where the image or its code is not known.
pub proof fn callers_need_image_and_code(
    query: &CallersQuery,
    base: Option<u64>,
    section: Option<(u64, &[u32])>,
    r: Result<CallersResponse, String>,
) -> (sites: Seq<int>)
    requires
        call_ensures(callers_query_handler, (query, base, section), r),
        base is Some && section is Some ==> base->Some_0 + query.rva <= u64::MAX && base->Some_0
            <= section->Some_0.0 && section->Some_0.0 + 4 * section->Some_0.1.len() <= u64::MAX,
    ensures
        r is Ok <==> base is Some && section is Some,
        r matches Ok(answer) ==> {
            let (text_va, text) = section->Some_0;
            &&& are_call_sites(sites, text@, text_va as int, base->Some_0 + query.rva)
            &&& answer.total == sites.len()
            &&& answer.caller_rvas.len() == match query.limit {
                Some(limit) => if sites.len() <= limit {
                    sites.len() as int
                } else {
                    limit as int
                },
                None => if sites.len() <= 64 {
                    sites.len() as int
                } else {
                    64
                },
            }
            &&& answer.image_base == base->Some_0
            &&& answer.image_base + answer.text_rva == text_va
            &&& answer.text_size == 4 * text.len()
            &&& answer.truncated <==> answer.caller_rvas.len() < sites.len()
            &&& forall|k: int|
                0 <= k < answer.caller_rvas.len() ==> base->Some_0
                    + #[trigger] answer.caller_rvas@[k] == text_va + 4 * sites[k]
        },
        base is None ==> r->Err_0@ == "UnityFramework image base unknown"@,
        base is Some && section is None ==> r->Err_0@ == "__TEXT.__text not found in the image"@,
{
    if base is Some && section is Some {
        let (text_va, text) = section->Some_0;
        let target = (base->Some_0 + query.rva) as u64;
        let sites = lemma_sites(text@, text_va, base->Some_0, target, text@.len());
        assert(text@.take(text@.len() as int) =~= text@);
        sites
    } else {
        Seq::empty()
    }
}

// ---------------------------------------------------------------------------
// Methods
// ---------------------------------------------------------------------------

/// Method `i` of the class is the one and only that `fits`.
pub open spec fn is_the_only(
    methods: Seq<CachedMethod>,
    fits: spec_fn(CachedMethod) -> bool,
    i: int,
) -> bool {
    &&& 0 <= i < methods.len()
    &&& fits(methods[i])
    &&& forall|k: int| 0 <= k < methods.len() && k != i ==> !fits(#[trigger] methods[k])
}

/// The candidates are the methods that fit, in ascending order.
proof fn lemma_candidates(
    methods: Seq<CachedMethod>,
    name: Seq<char>,
    count: u32,
    arity: Arity,
    upto: nat,
)
    requires
        upto <= methods.len(),
    ensures
        ({
            let found = crate::recon::candidates(methods, name, count, arity, upto);
            &&& forall|k: int|
                0 <= k < found.len() ==> 0 <= #[trigger] found[k] < upto
                    && crate::recon::is_candidate(methods[found[k]], name, count, arity)
            &&& forall|j: int, k: int| 0 <= j < k < found.len() ==> found[j] < found[k]
            &&& forall|i: int|
                0 <= i < upto && crate::recon::is_candidate(#[trigger] methods[i], name, count, arity)
                    ==> found.contains(i)
        }),
    decreases upto,
{
    if upto > 0 {
        let before = crate::recon::candidates(methods, name, count, arity, (upto - 1) as nat);
        let found = crate::recon::candidates(methods, name, count, arity, upto);
        lemma_candidates(methods, name, count, arity, (upto - 1) as nat);
        assert forall|i: int|
            0 <= i < upto && crate::recon::is_candidate(#[trigger] methods[i], name, count, arity)
            implies found.contains(i) by {
            if i < upto - 1 {
                let k = choose|k: int| 0 <= k < before.len() && before[k] == i;
                assert(found[k] == i);
            } else {
                assert(found[before.len() as int] == i);
            }
        }
    }
}

/// There is an only candidate exactly where one method alone fits.
proof fn lemma_only(
    methods: Seq<CachedMethod>,
    name: Seq<char>,
    count: u32,
    arity: Arity,
    fits: spec_fn(CachedMethod) -> bool,
)
    requires
        forall|method: CachedMethod|
            #[trigger] fits(method) == crate::recon::is_candidate(method, name, count, arity),
    ensures
        match crate::recon::only_candidate(methods, name, count, arity) {
            Some(index) => is_the_only(methods, fits, index),
            None => forall|i: int| !#[trigger] is_the_only(methods, fits, i),
        },
        forall|i: int| #[trigger]
            is_the_only(methods, fits, i) ==> crate::recon::only_candidate(
                methods,
                name,
                count,
                arity,
            ) == Some(i),
{
    lemma_candidates(methods, name, count, arity, methods.len());
    let found = crate::recon::candidates(methods, name, count, arity, methods.len());
    if found.len() == 1 {
        let index = found[0];
        assert forall|k: int| 0 <= k < methods.len() && k != index implies !fits(
            #[trigger] methods[k],
        ) by {
            if fits(methods[k]) {
                assert(found.contains(k));
            }
        }
        assert forall|i: int| #[trigger] is_the_only(methods, fits, i) implies i == index by {
            assert(fits(methods[index]));
        }
    } else {
        assert forall|i: int| !#[trigger] is_the_only(methods, fits, i) by {
            if is_the_only(methods, fits, i) {
                assert(found.contains(i));
                assert(found[0] != found[1]);
                let other = if found[0] == i {
                    found[1]
                } else {
                    found[0]
                };
                assert(fits(methods[other]));
            }
        }
    }
}

/// A target is resolved to the one method of its class that bears its name and
/// lists as many parameters as it asks for, whatever else the class holds, and
/// the reference says what the cache knows of that very method. Where no such
/// method is alone, or it has no address, or the class is not there, the
/// target is not resolved.
pub proof fn target_is_the_only_such_method(
    target: &TargetId,
    lookup: &CacheLookup,
    r: Result<MethodRef, HookError>,
)
    requires
        call_ensures(resolve_target, (target, lookup), r),
    ensures
        lookup matches CacheLookup::Class(class) ==> {
            let fits = |method: CachedMethod|
                method.name@ == target.method@ && method.param_types.len() == target.param_count;
            &&& r matches Ok(found) ==> exists|i: int|
                {
                    let method = class.methods@[i];
                    &&& #[trigger] is_the_only(class.methods@, fits, i)
                    &&& method.address != 0
                    &&& found.method@ == method.name@
                    &&& found.param_count == method.param_types.len()
                    &&& found.parameter_types.len() == method.param_types.len()
                    &&& forall|k: int|
                        0 <= k < method.param_types.len() ==> (
                        #[trigger] found.parameter_types@[k])@ == method.param_types@[k]@
                    &&& found.return_type@ == method.return_type@
                    &&& found.is_static == method.is_static
                    &&& found.is_generic == method.is_generic
                    &&& found.is_inflated == method.is_inflated
                    &&& found.method_info == method.address
                    &&& found.method_pointer_slot == method.address
                }
            &&& r is Ok <==> exists|i: int| #[trigger]
                is_the_only(class.methods@, fits, i) && class.methods@[i].address != 0
            &&& r == Err::<MethodRef, HookError>(HookError::SignatureMismatch) <==> forall|i: int|
                !#[trigger] is_the_only(class.methods@, fits, i)
        },
        r matches Ok(found) ==> *lookup is Class && found.assembly@ == target.assembly@
            && found.namespace@ == target.namespace@ && found.class@ == target.class@,
        r matches Err(error) ==> error == HookError::SignatureMismatch || error
            == HookError::TargetUnavailable,
        !(*lookup is Class) ==> r == Err::<MethodRef, HookError>(HookError::TargetUnavailable),
{
    if let CacheLookup::Class(class) = lookup {
        let fits = |method: CachedMethod|
            method.name@ == target.method@ && method.param_types.len() == target.param_count;
        lemma_only(class.methods@, target.method@, target.param_count, Arity::Listed, fits);
        if let Ok(found) = r {
            let i = crate::recon::only_candidate(
                class.methods@,
                target.method@,
                target.param_count,
                Arity::Listed,
            )->Some_0;
            assert(is_the_only(class.methods@, fits, i));
            let method = class.methods@[i];
            let shown = crate::recon::texts(found.parameter_types@);
            let known = crate::recon::texts(method.param_types@);
            assert(shown.len() == known.len());
            assert forall|k: int| 0 <= k < method.param_types.len() implies (
            #[trigger] found.parameter_types@[k])@ == method.param_types@[k]@ by {
                assert(shown[k] == known[k]);
            }
        }
    }
}

/// The address of a method is that of the one method of the class that bears
/// its name and is declared with as many parameters as are asked for. There is
/// none where no such method is alone or it is not compiled, and an error only
/// where the class is not there.
pub proof fn method_address_is_of_the_only_such_method(
    query: &ClassQuery,
    lookup: &CacheLookup,
    method: &str,
    param_count: u32,
    r: Result<Option<u64>, Il2CppError>,
)
    requires
        call_ensures(resolve_method_va, (query, lookup, method, param_count), r),
    ensures
        r is Ok <==> *lookup is Class,
        lookup matches CacheLookup::Class(class) ==> {
            let fits = |known: CachedMethod|
                known.name@ == method@ && known.param_count == param_count;
            &&& forall|i: int| #[trigger]
                is_the_only(class.methods@, fits, i) ==> r->Ok_0 == if class.methods@[i].va == 0 {
                    None::<u64>
                } else {
                    Some(class.methods@[i].va)
                }
            &&& r->Ok_0 is Some ==> exists|i: int| #[trigger]
                is_the_only(class.methods@, fits, i)
        },
        r matches Err(error) ==> error is ClassNotFound && error->ClassNotFound_0@
            == if *lookup is NoAssembly {
            query.assembly@
        } else {
            query.assembly@ + "::"@ + query.class@
        },
{
    if let CacheLookup::Class(class) = lookup {
        let fits = |known: CachedMethod|
            known.name@ == method@ && known.param_count == param_count;
        lemma_only(class.methods@, method@, param_count, Arity::Declared, fits);
    }
}

// ---------------------------------------------------------------------------
// Surfaces
// ---------------------------------------------------------------------------

/// `picked` are the fields that have storage to read: the static ones whose
/// offset is not negative, in order.
pub open spec fn are_read(picked: Seq<int>, fields: Seq<CachedField>) -> bool {
    &&& forall|i: int|
        0 <= i < fields.len() ==> ((#[trigger] fields[i]).is_static && fields[i].offset >= 0
            <==> picked.contains(i))
    &&& forall|k: int| 0 <= k < picked.len() ==> 0 <= #[trigger] picked[k] < fields.len()
    &&& forall|j: int, k: int| 0 <= j < k < picked.len() ==> picked[j] < picked[k]
}

/// `statics` are the words of the fields `picked`, each with the name of its
/// field and read at its offset in the storage.
pub open spec fn are_words<F: Fn(usize) -> u64>(
    statics: Seq<StaticValue>,
    picked: Seq<int>,
    static_data: usize,
    fields: Seq<CachedField>,
    read: F,
) -> bool {
    &&& statics.len() == picked.len()
    &&& forall|k: int|
        0 <= k < statics.len() ==> {
            let field = fields[picked[k]];
            &&& (#[trigger] statics[k]).name@ == field.name@
            &&& read.ensures(((static_data + field.offset) as usize,), statics[k].raw)
        }
}

proof fn lemma_read_fields(fields: Seq<CachedField>, count: nat)
    requires
        count <= fields.len(),
    ensures
        are_read(crate::recon::read_fields(fields, count), fields.take(count as int)),
    decreases count,
{
    let picked = crate::recon::read_fields(fields, count);
    if count > 0 {
        let last = count - 1;
        let before = crate::recon::read_fields(fields, last as nat);
        let shorter = fields.take(last);
        let longer = fields.take(count as int);
        lemma_read_fields(fields, last as nat);
        assert forall|i: int| 0 <= i < longer.len() implies ((#[trigger] longer[i]).is_static
            && longer[i].offset >= 0 <==> picked.contains(i)) by {
            if i < last {
                assert(shorter[i] == longer[i]);
                if before.contains(i) {
                    let k = choose|k: int| 0 <= k < before.len() && before[k] == i;
                    assert(picked[k] == i);
                }
                if picked.contains(i) {
                    let k = choose|k: int| 0 <= k < picked.len() && picked[k] == i;
                    assert(before[k] == i);
                }
            } else if crate::recon::is_read(fields[last]) {
                assert(picked[before.len() as int] == i);
            } else {
                assert(longer[i] == fields[last]);
            }
        }
    }
}

/// The raw words of a class are those of its static fields with a valid offset,
/// all of them and in order, each read where the field lies; without storage
/// nothing is read.
pub proof fn static_words_are_read_in_place<F: Fn(usize) -> u64>(
    static_data: usize,
    fields: &Vec<CachedField>,
    read: &F,
    r: Vec<StaticValue>,
) -> (picked: Seq<int>)
    requires
        call_ensures(read_statics::<F>, (static_data, fields, read), r),
    ensures
        are_read(picked, fields@),
        static_data == 0 ==> r.len() == 0,
        static_data != 0 ==> are_words(r@, picked, static_data, fields@, *read),
{
    lemma_read_fields(fields@, fields@.len());
    assert(fields@.take(fields@.len() as int) =~= fields@);
    crate::recon::read_fields(fields@, fields@.len())
}

/// The surface of a class says of every method and every field, in order, what
/// the cache knows of it. The offset of a method is its distance from the
/// image, or 0 for an address before it. A class that is not there is named in
/// the error.
pub proof fn surface_says_what_the_cache_knows<F: Fn(usize) -> u64>(
    query: &ClassQuery,
    lookup: &CacheLookup,
    image_base: Option<usize>,
    read: &F,
    r: Result<ClassSurface, Il2CppError>,
) -> (picked: Seq<int>)
    requires
        call_ensures(class_surface::<F>, (query, lookup, image_base, read), r),
    ensures
        r is Ok <==> *lookup is Class,
        r matches Err(error) ==> error is ClassNotFound && error->ClassNotFound_0@
            == if *lookup is NoAssembly {
            query.assembly@
        } else {
            query.assembly@ + "::"@ + query.class@
        },
        r matches Ok(surface) ==> {
            let class = lookup->Class_0;
            let base = match image_base {
                Some(base) => base,
                None => 0,
            };
            &&& surface.assembly@ == class.assembly@
            &&& surface.full_name@ == class.namespace@ + "."@ + class.name@
            &&& surface.class_address == class.address
            &&& surface.static_field_data == class.static_field_data
            &&& surface.image_base == base
            &&& surface.methods.len() == class.methods.len()
            &&& forall|i: int|
                0 <= i < class.methods.len() ==> {
                    let shown = #[trigger] surface.methods@[i];
                    let method = class.methods@[i];
                    &&& shown.name@ == method.name@
                    &&& shown.param_count == method.param_count
                    &&& shown.return_type@ == method.return_type@
                    &&& shown.is_static == method.is_static
                    &&& shown.va == method.va
                    &&& method.va >= base ==> base + shown.rva == method.va
                    &&& method.va < base ==> shown.rva == 0
                    &&& shown.param_types.len() == method.param_types.len()
                    &&& forall|j: int|
                        0 <= j < method.param_types.len() ==> (
                        #[trigger] shown.param_types@[j])@ == method.param_types@[j]@
                }
            &&& surface.fields.len() == class.fields.len()
            &&& forall|i: int|
                0 <= i < class.fields.len() ==> {
                    let shown = #[trigger] surface.fields@[i];
                    let field = class.fields@[i];
                    &&& shown.name@ == field.name@
                    &&& shown.field_type@ == field.field_type@
                    &&& shown.is_static == field.is_static
                    &&& shown.offset == field.offset
                }
            &&& are_read(picked, class.fields@)
            &&& class.static_field_data == 0 ==> surface.statics.len() == 0
            &&& class.static_field_data != 0 ==> are_words(
                surface.statics@,
                picked,
                class.static_field_data,
                class.fields@,
                *read,
            )
        },
{
    if let CacheLookup::Class(class) = lookup {
        let surface = r->Ok_0;
        let base = match image_base {
            Some(base) => base,
            None => 0,
        };
        assert forall|i: int| 0 <= i < class.methods.len() implies crate::recon::shows_method(
            #[trigger] surface.methods@[i],
            class.methods@[i],
            base,
        ) && surface.methods@[i].param_types.len() == class.methods@[i].param_types.len() && (forall|
            j: int,
        |
            0 <= j < class.methods@[i].param_types.len() ==> (
            #[trigger] surface.methods@[i].param_types@[j])@ == class.methods@[i].param_types@[j]@)
            by {
            assert(surface.methods[i] == surface.methods@[i]);
            let shown = crate::recon::texts(surface.methods@[i].param_types@);
            assert(shown.len() == surface.methods@[i].param_types@.len());
            let known = crate::recon::texts(class.methods@[i].param_types@);
            assert(known.len() == class.methods@[i].param_types@.len());
            assert forall|j: int| 0 <= j < class.methods@[i].param_types.len() implies (
            #[trigger] surface.methods@[i].param_types@[j])@ == class.methods@[i].param_types@[j]@ by {
                assert(shown[j] == known[j]);
            }
        }
        assert forall|i: int| 0 <= i < class.fields.len() implies crate::recon::shows_field(
            #[trigger] surface.fields@[i],
            class.fields@[i],
        ) by {
            assert(surface.fields[i] == surface.fields@[i]);
        }
        lemma_read_fields(class.fields@, class.fields@.len());
        assert(class.fields@.take(class.fields@.len() as int) =~= class.fields@);
        crate::recon::read_fields(class.fields@, class.fields@.len())
    } else {
        Seq::empty()
    }
}

/// A class that is there is answered by its surface, and one that is not by the
/// text of the error; the topic itself never fails.
pub proof fn class_topic_always_answers(
    found: Result<ClassSurface, Il2CppError>,
    r: Result<Result<ClassSurface, String>, DebugHandlerError>,
    error: &Il2CppError,
    text: String,
)
    requires
        call_ensures(class_query_handler, (found,), r),
        call_ensures(Il2CppError::message, (error,), text),
        found matches Err(inner) ==> inner == *error,
    ensures
        r is Ok,
        found matches Ok(surface) ==> r->Ok_0 == Ok::<ClassSurface, String>(surface),
        found is Err ==> r->Ok_0 is Err && r->Ok_0->Err_0@ == text@,
{
}

/// `image` is mapped, and its path ends in `UnityFramework`.
pub open spec fn is_mapped_framework(image: MappedImage) -> bool {
    &&& image.header != 0
    &&& image.path is Some
    &&& exists|head: Seq<char>| image.path->Some_0@ == #[trigger] (head + "UnityFramework"@)
}

proof fn lemma_mapped_framework(image: MappedImage)
    ensures
        crate::recon::is_game_image(image) <==> is_mapped_framework(image),
{
    if image.path is Some {
        let path = image.path->Some_0@;
        let count = "UnityFramework"@.len() as int;
        if crate::recon::is_game_image(image) {
            let head = path.take(path.len() - count);
            assert(path =~= head + "UnityFramework"@);
        }
        if is_mapped_framework(image) {
            let head = choose|head: Seq<char>| path == #[trigger] (head + "UnityFramework"@);
            assert(path.skip(path.len() - count) =~= "UnityFramework"@);
        }
    }
}

/// The game is the first image that is mapped and whose path ends in
/// `UnityFramework`, and a target's class is looked up by its full name.
pub proof fn first_mapped_framework_is_the_game(
    images: &Vec<MappedImage>,
    r: Option<usize>,
    target: &TargetId,
    name: String,
)
    requires
        call_ensures(game_image, (images,), r),
        call_ensures(target_class_name, (target,), name),
    ensures
        r matches Some(header) ==> exists|i: int|
            {
                &&& 0 <= i < images.len()
                &&& is_mapped_framework(#[trigger] images@[i])
                &&& images@[i].header == header
                &&& forall|k: int| 0 <= k < i ==> !is_mapped_framework(#[trigger] images@[k])
            },
        r is None ==> forall|k: int|
            0 <= k < images.len() ==> !is_mapped_framework(#[trigger] images@[k]),
        name@ == target.namespace@ + "."@ + target.class@,
        crate::recon::CLASS_TOPIC@ == "recon.class"@,
        crate::recon::CALLERS_TOPIC@ == "recon.callers"@,
{
    assert forall|k: int| 0 <= k < images.len() implies (crate::recon::is_game_image(
        #[trigger] images@[k],
    ) <==> is_mapped_framework(images@[k])) by {
        lemma_mapped_framework(images@[k]);
    }
    if let Some(header) = r {
        let i = choose|i: int|
            {
                &&& 0 <= i < images@.len()
                &&& crate::recon::is_game_image(#[trigger] images@[i])
                &&& images@[i].header == header
                &&& forall|k: int|
                    0 <= k < i ==> !crate::recon::is_game_image(#[trigger] images@[k])
            };
        assert(is_mapped_framework(images@[i]));
    }
}

} // verus!
