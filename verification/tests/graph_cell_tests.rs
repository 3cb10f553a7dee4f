use deno_loader::cell::ModuleGraphCell;
use deno_loader::graph::{DepEdge, EdgeOutcome, ModuleGraph, ModuleRecord};

fn source_record(location: &str, code: &[u8], target: Option<&str>) -> ModuleRecord {
    let edges = match target {
        Some(t) => vec![DepEdge {
            raw: t.to_string(),
            outcome: EdgeOutcome::Resolved(t.to_string()),
            is_dynamic: false,
        }],
        None => Vec::new(),
    };
    ModuleRecord::Source {
        location: location.to_string(),
        media: deno_loader::media::MediaKind::TypeScript,
        source: code.to_vec(),
        is_script: None,
        edges,
    }
}

#[test]
fn lookup_finds_a_pushed_record() {
    let mut g = ModuleGraph::new();
    g.push_module(source_record("file:///proj/a.ts", b"export {}", None));
    let found = g.lookup(&String::from("file:///proj/a.ts"));
    assert!(found.is_some());
    assert!(g.lookup(&String::from("file:///proj/b.ts")).is_none());
}

#[test]
fn roots_are_membership_checked() {
    let mut g = ModuleGraph::new();
    g.push_root(String::from("file:///proj/a.ts"));
    assert!(g.has_root(&String::from("file:///proj/a.ts")));
    assert!(!g.has_root(&String::from("file:///proj/b.ts")));
}

#[test]
fn readers_keep_the_published_snapshot_while_a_copy_grows() {
    let mut g = ModuleGraph::new();
    g.push_module(source_record("file:///proj/a.ts", b"export {}", None));
    let mut cell = ModuleGraphCell::new(g);

    let mut copy = cell.deep_clone();
    copy.push_module(source_record("file:///proj/b.ts", b"export {}", None));

    // The published snapshot is unchanged until the copy is republished.
    assert!(cell.get().lookup(&String::from("file:///proj/b.ts")).is_none());
    cell.set(copy);
    assert!(cell.get().lookup(&String::from("file:///proj/b.ts")).is_some());
    assert!(cell.get().lookup(&String::from("file:///proj/a.ts")).is_some());
}

#[test]
fn deep_clone_copies_every_part_of_a_record() {
    let mut g = ModuleGraph::new();
    g.push_root(String::from("file:///proj/a.ts"));
    g.push_module(source_record("file:///proj/a.ts", b"import './b.ts';", Some(
        "file:///proj/b.ts",
    )));
    let cell = ModuleGraphCell::new(g);
    let copy = cell.deep_clone();
    assert_eq!(copy.roots.len(), 1);
    assert_eq!(copy.roots[0], "file:///proj/a.ts");
    match copy.lookup(&String::from("file:///proj/a.ts")) {
        Some(ModuleRecord::Source { source, edges, .. }) => {
            assert_eq!(source.as_slice(), b"import './b.ts';");
            assert_eq!(edges.len(), 1);
            assert_eq!(edges[0].raw, "file:///proj/b.ts");
        },
        _ => panic!("expected the source record"),
    }
}
