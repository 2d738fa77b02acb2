use shiny_song_tools::error::{HookError, Il2CppError};
use shiny_song_tools::fps::rate_target;
use shiny_song_tools::macho::macho_text_section;
use shiny_song_tools::recon::{
    callers_query_handler, class_query_handler, class_surface, find_callers, game_image,
    read_statics, resolve_method_va, resolve_target, target_class_name, CacheLookup, CachedClass,
    CachedField, CachedMethod, CallersQuery, ClassQuery, MappedImage, ReconPlugin, CALLERS_TOPIC,
    CLASS_TOPIC,
};
use shiny_song_tools::text::{ends_with_text, has_nul, same_text};

const BASE: u64 = 0x1_0000_0000;

/// `bl` from word `at` of the code at `text_va` to `target`.
fn bl(text_va: u64, at: usize, target: u64) -> u32 {
    let distance = (target as i64 - (text_va as i64 + at as i64 * 4)) / 4;
    0x9400_0000 | (distance as u32 & 0x03FF_FFFF)
}

#[test]
fn direct_callers_are_found_and_counted() {
    let text_va = BASE + 0x4000;
    let target = BASE + 0x1000;
    let text = [
        0xD503_201F,
        bl(text_va, 1, target),
        bl(text_va, 2, target + 4),
        bl(text_va, 3, target),
        bl(text_va, 4, target),
    ];
    let query = CallersQuery {
        rva: 0x1000,
        limit: Some(2),
    };
    let response = find_callers(&query, BASE, text_va, &text);
    assert_eq!(response.total, 3);
    assert!(response.truncated);
    assert_eq!(response.caller_rvas, vec![0x4004, 0x400C]);
    assert_eq!(response.image_base, BASE);
    assert_eq!(response.text_rva, 0x4000);
    assert_eq!(response.text_size, 20);

    let all = CallersQuery {
        rva: 0x1000,
        limit: None,
    };
    let response = callers_query_handler(&all, Some(BASE), Some((text_va, &text))).expect("found");
    assert!(!response.truncated);
    assert_eq!(response.caller_rvas, vec![0x4004, 0x400C, 0x4010]);
}

#[test]
fn sixty_four_callers_are_reported_by_default() {
    let text_va = BASE + 0x4000;
    let target = BASE + 0x1000;
    let text: Vec<u32> = (0..70).map(|at| bl(text_va, at, target)).collect();
    let query = CallersQuery {
        rva: 0x1000,
        limit: None,
    };
    let response = find_callers(&query, BASE, text_va, &text);
    assert_eq!(response.total, 70);
    assert_eq!(response.caller_rvas.len(), 64);
    assert!(response.truncated);
}

#[test]
fn unknown_images_are_reported_as_text() {
    let query = CallersQuery {
        rva: 0,
        limit: None,
    };
    assert_eq!(
        callers_query_handler(&query, None, None).err().as_deref(),
        Some("UnityFramework image base unknown")
    );
    assert_eq!(
        callers_query_handler(&query, Some(BASE), None).err().as_deref(),
        Some("__TEXT.__text not found in the image")
    );
}

fn method(name: &str, param_count: u8, address: usize, va: u64) -> CachedMethod {
    CachedMethod {
        name: name.to_owned(),
        param_count,
        param_types: vec!["int".to_owned(); param_count as usize],
        return_type: "void".to_owned(),
        is_static: true,
        is_generic: false,
        is_inflated: false,
        address,
        va,
    }
}

fn field(name: &str, is_static: bool, offset: i32) -> CachedField {
    CachedField {
        name: name.to_owned(),
        field_type: "object".to_owned(),
        is_static,
        offset,
    }
}

fn class(methods: Vec<CachedMethod>) -> CacheLookup {
    CacheLookup::Class(CachedClass {
        assembly: "UnityEngine.CoreModule.dll".to_owned(),
        namespace: "UnityEngine".to_owned(),
        name: "Application".to_owned(),
        address: 0x50,
        static_field_data: 0x9000,
        methods,
        fields: vec![
            field("instance", true, 8),
            field("value", false, 16),
            field("broken", true, -1),
        ],
    })
}

fn query() -> ClassQuery {
    ClassQuery {
        assembly: "Game.dll".to_owned(),
        class: "Game.Thing".to_owned(),
    }
}

#[test]
fn class_surface_shows_methods_fields_and_statics() {
    let lookup = class(vec![
        method("set_targetFrameRate", 1, 0x70, BASE + 0x20),
        method("early", 0, 0x80, 5),
    ]);
    let read = |address: usize| address as u64 + 1;
    let surface = class_surface(&query(), &lookup, Some(BASE as usize), &read).expect("found");
    assert_eq!(surface.full_name, "UnityEngine.Application");
    assert_eq!(surface.class_address, 0x50);
    assert_eq!(surface.methods[0].rva, 0x20);
    assert_eq!(surface.methods[0].param_types, vec!["int"]);
    assert_eq!(surface.methods[1].rva, 0, "an address before the image");
    assert_eq!(surface.fields.len(), 3);
    assert_eq!(surface.fields[2].offset, -1);
    assert_eq!(surface.statics.len(), 1, "malformed offsets are skipped");
    assert_eq!(surface.statics[0].name, "instance");
    assert_eq!(surface.statics[0].raw, 0x9009);
    let unknown = class_surface(&query(), &lookup, None, &read).expect("found");
    assert_eq!(unknown.image_base, 0);
    assert!(read_statics(0, &vec![field("a", true, 0)], &read).is_empty());
}

#[test]
fn missing_classes_are_named() {
    let read = |_: usize| 0;
    let missing = class_surface(&query(), &CacheLookup::NoAssembly, None, &read);
    let answer = class_query_handler(missing).expect("an answer");
    assert_eq!(
        answer.err().as_deref(),
        Some("il2cpp class not found: Game.dll")
    );
    let missing = class_surface(&query(), &CacheLookup::NoClass, None, &read);
    let answer = class_query_handler(missing).expect("an answer");
    assert_eq!(
        answer.err().as_deref(),
        Some("il2cpp class not found: Game.dll::Game.Thing")
    );
    let found = class_surface(&query(), &class(vec![]), None, &read);
    assert!(class_query_handler(found).expect("an answer").is_ok());
}

#[test]
fn methods_resolve_only_when_unambiguous_and_compiled() {
    let va = |methods| resolve_method_va(&query(), &class(methods), "run", 1);
    assert_eq!(va(vec![method("run", 1, 1, 0x44)]), Ok(Some(0x44)));
    assert_eq!(va(vec![method("run", 1, 1, 0)]), Ok(None));
    assert_eq!(va(vec![method("run", 2, 1, 0x44)]), Ok(None));
    assert_eq!(
        va(vec![method("run", 1, 1, 0x44), method("run", 1, 2, 0x48)]),
        Ok(None)
    );
    assert_eq!(
        resolve_method_va(&query(), &CacheLookup::NoAssembly, "run", 1),
        Err(Il2CppError::ClassNotFound("Game.dll".to_owned()))
    );
}

#[test]
fn targets_resolve_to_the_cached_method() {
    let target = rate_target();
    assert_eq!(target_class_name(&target), "UnityEngine.Application");
    let resolved = resolve_target(
        &target,
        &class(vec![method("set_targetFrameRate", 1, 0x70, 0x99)]),
    )
    .expect("resolved");
    assert!(resolved.matches_target(&target));
    assert_eq!(resolved.method_info, 0x70);
    assert_eq!(resolved.method_pointer_slot, 0x70);
    assert_eq!(
        resolve_target(&target, &CacheLookup::NoClass),
        Err(HookError::TargetUnavailable)
    );
    assert_eq!(
        resolve_target(&target, &class(vec![])),
        Err(HookError::SignatureMismatch)
    );
    assert_eq!(
        resolve_target(
            &target,
            &class(vec![method("set_targetFrameRate", 1, 0, 0x99)])
        ),
        Err(HookError::TargetUnavailable)
    );
}

#[test]
fn targets_are_counted_by_their_argument_list() {
    let target = rate_target();
    let mut listed = method("set_targetFrameRate", 1, 0x70, 0x99);
    listed.param_count = 2;
    assert!(resolve_target(&target, &class(vec![listed])).is_ok());
    let mut unlisted = method("set_targetFrameRate", 1, 0x70, 0x99);
    unlisted.param_types.clear();
    assert_eq!(
        resolve_target(&target, &class(vec![unlisted])),
        Err(HookError::SignatureMismatch)
    );
}

/// An image with one segment command that holds two sections.
fn image(segment: &[u8], section: &[u8]) -> Vec<u8> {
    let mut image = vec![0u8; 32 + 72 + 160];
    image[..4].copy_from_slice(&0xfeed_facfu32.to_le_bytes());
    image[16..20].copy_from_slice(&1u32.to_le_bytes());
    image[20..24].copy_from_slice(&(72u32 + 160).to_le_bytes());
    image[32..36].copy_from_slice(&0x19u32.to_le_bytes());
    image[36..40].copy_from_slice(&(72u32 + 160).to_le_bytes());
    image[40..40 + segment.len()].copy_from_slice(segment);
    image[32 + 64..32 + 68].copy_from_slice(&2u32.to_le_bytes());
    let second = 32 + 72 + 80;
    image[second..second + section.len()].copy_from_slice(section);
    image[second + 32..second + 40].copy_from_slice(&0x4000u64.to_le_bytes());
    image[second + 40..second + 48].copy_from_slice(&0x123u64.to_le_bytes());
    image
}

#[test]
fn code_section_is_located_in_the_load_commands() {
    let header = 0x1_0000;
    assert_eq!(
        macho_text_section(&image(b"__TEXT", b"__text"), header),
        Some((header + 0x4000, 0x123))
    );
    assert_eq!(macho_text_section(&image(b"__DATA", b"__text"), header), None);
    assert_eq!(macho_text_section(&image(b"__TEXT", b"__stubs"), header), None);
    let mut other = image(b"__TEXT", b"__text");
    other[0] = 0;
    assert_eq!(macho_text_section(&other, header), None);
    let mut short = image(b"__TEXT", b"__text");
    short.truncate(100);
    assert_eq!(macho_text_section(&short, header), None);
}

#[test]
fn game_image_is_the_first_mapped_one() {
    let image = |path: Option<&str>, header: usize| MappedImage {
        path: path.map(str::to_owned),
        header,
    };
    let images = vec![
        image(None, 1),
        image(Some("/app/UnityFramework"), 0),
        image(Some("/app/UnityFramework.old"), 2),
        image(Some("/app/UnityFramework"), 3),
        image(Some("/b/UnityFramework"), 4),
    ];
    assert_eq!(game_image(&images), Some(3));
    assert_eq!(game_image(&vec![]), None);
}

#[test]
fn texts_compare_by_their_characters() {
    assert!(same_text("a\u{3042}", "a\u{3042}"));
    assert!(!same_text("a", "b"));
    assert!(ends_with_text("x/\u{3042}b", "\u{3042}b"));
    assert!(ends_with_text("ab", ""));
    assert!(!ends_with_text("b", "ab"));
    assert!(has_nul("a\0"));
    assert!(!has_nul("a0"));
}

#[test]
fn recon_plugin_and_topics_are_named() {
    assert_eq!(ReconPlugin.name(), "recon");
    assert_eq!(CLASS_TOPIC, "recon.class");
    assert_eq!(CALLERS_TOPIC, "recon.callers");
}
