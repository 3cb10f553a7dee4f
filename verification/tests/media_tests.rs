use deno_loader::media::{
    MediaKind, media_kind_of_fetched, media_kind_of_location, media_type_to_u8, is_emittable,
    parse_resolution_mode, ResolutionMode,
};

#[test]
fn media_codes_match_the_host_encoding() {
    assert_eq!(media_type_to_u8(MediaKind::JavaScript), 0);
    assert_eq!(media_type_to_u8(MediaKind::Jsx), 1);
    assert_eq!(media_type_to_u8(MediaKind::Mjs), 2);
    assert_eq!(media_type_to_u8(MediaKind::Cjs), 3);
    assert_eq!(media_type_to_u8(MediaKind::TypeScript), 4);
    assert_eq!(media_type_to_u8(MediaKind::Mts), 5);
    assert_eq!(media_type_to_u8(MediaKind::Cts), 6);
    assert_eq!(media_type_to_u8(MediaKind::Dts), 7);
    assert_eq!(media_type_to_u8(MediaKind::Dmts), 8);
    assert_eq!(media_type_to_u8(MediaKind::Dcts), 9);
    assert_eq!(media_type_to_u8(MediaKind::Tsx), 10);
    assert_eq!(media_type_to_u8(MediaKind::Css), 11);
    assert_eq!(media_type_to_u8(MediaKind::Json), 12);
    assert_eq!(media_type_to_u8(MediaKind::Jsonc), 13);
    assert_eq!(media_type_to_u8(MediaKind::Json5), 14);
    assert_eq!(media_type_to_u8(MediaKind::Html), 15);
    assert_eq!(media_type_to_u8(MediaKind::Sql), 16);
    assert_eq!(media_type_to_u8(MediaKind::Wasm), 17);
    assert_eq!(media_type_to_u8(MediaKind::SourceMap), 18);
    assert_eq!(media_type_to_u8(MediaKind::Unknown), 19);
}

#[test]
fn extension_classification() {
    assert_eq!(media_kind_of_location("file:///p/a.ts"), MediaKind::TypeScript);
    assert_eq!(media_kind_of_location("file:///p/a.d.ts"), MediaKind::Dts);
    assert_eq!(media_kind_of_location("file:///p/a.d.mts"), MediaKind::Dmts);
    assert_eq!(media_kind_of_location("file:///p/a.d.cts"), MediaKind::Dcts);
    assert_eq!(media_kind_of_location("file:///p/a.mts"), MediaKind::Mts);
    assert_eq!(media_kind_of_location("file:///p/a.cts"), MediaKind::Cts);
    assert_eq!(media_kind_of_location("file:///p/a.tsx"), MediaKind::Tsx);
    assert_eq!(media_kind_of_location("file:///p/a.js"), MediaKind::JavaScript);
    assert_eq!(media_kind_of_location("file:///p/a.jsx"), MediaKind::Jsx);
    assert_eq!(media_kind_of_location("file:///p/a.mjs"), MediaKind::Mjs);
    assert_eq!(media_kind_of_location("file:///p/a.cjs"), MediaKind::Cjs);
    assert_eq!(media_kind_of_location("file:///p/a.json"), MediaKind::Json);
    assert_eq!(media_kind_of_location("file:///p/a.jsonc"), MediaKind::Jsonc);
    assert_eq!(media_kind_of_location("file:///p/a.json5"), MediaKind::Json5);
    assert_eq!(media_kind_of_location("file:///p/a.css"), MediaKind::Css);
    assert_eq!(media_kind_of_location("file:///p/a.html"), MediaKind::Html);
    assert_eq!(media_kind_of_location("file:///p/a.sql"), MediaKind::Sql);
    assert_eq!(media_kind_of_location("file:///p/a.wasm"), MediaKind::Wasm);
    assert_eq!(media_kind_of_location("file:///p/a.map"), MediaKind::SourceMap);
    assert_eq!(media_kind_of_location("file:///p/a"), MediaKind::Unknown);
}

#[test]
fn query_and_fragment_do_not_change_the_extension() {
    assert_eq!(media_kind_of_location("https://x.example/a.ts?foo=.js"), MediaKind::TypeScript);
    assert_eq!(media_kind_of_location("https://x.example/a.js#frag.ts"), MediaKind::JavaScript);
}

#[test]
fn content_type_decides_with_extension_refinement() {
    let ts = String::from("text/typescript");
    let js = String::from("application/javascript");
    let json = String::from("application/json");
    let other = String::from("application/octet-stream");
    assert_eq!(
        media_kind_of_fetched("https://x.example/mod", Some(&ts)),
        MediaKind::TypeScript
    );
    assert_eq!(media_kind_of_fetched("https://x.example/mod.mts", Some(&ts)), MediaKind::Mts);
    assert_eq!(media_kind_of_fetched("https://x.example/mod.cjs", Some(&js)), MediaKind::Cjs);
    assert_eq!(media_kind_of_fetched("https://x.example/mod", Some(&js)), MediaKind::JavaScript);
    assert_eq!(media_kind_of_fetched("https://x.example/mod.ts", Some(&json)), MediaKind::Json);
    assert_eq!(
        media_kind_of_fetched("https://x.example/mod.ts", Some(&other)),
        MediaKind::TypeScript
    );
    assert_eq!(media_kind_of_fetched("https://x.example/mod.ts", None), MediaKind::TypeScript);
}

#[test]
fn emittable_kinds_are_the_transpiled_ones() {
    assert!(is_emittable(MediaKind::TypeScript));
    assert!(is_emittable(MediaKind::Mts));
    assert!(is_emittable(MediaKind::Cts));
    assert!(is_emittable(MediaKind::Jsx));
    assert!(is_emittable(MediaKind::Tsx));
    assert!(!is_emittable(MediaKind::JavaScript));
    assert!(!is_emittable(MediaKind::Dts));
    assert!(!is_emittable(MediaKind::Json));
}

#[test]
fn resolution_mode_decoding() {
    assert_eq!(parse_resolution_mode(1), ResolutionMode::Require);
    assert_eq!(parse_resolution_mode(0), ResolutionMode::Import);
    assert_eq!(parse_resolution_mode(7), ResolutionMode::Import);
}
