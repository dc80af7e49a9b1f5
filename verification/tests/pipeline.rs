use utility_css::compiler::Compiler;
use utility_css::error::CompileError;

#[test]
fn single_flag_utility() {
    let mut c = Compiler::new();
    let names = c.generate_classes("block").unwrap();
    assert_eq!(names, vec!["_E0".to_string()]);
    let css = c.get_css().unwrap();
    assert_eq!(css, "._E0{display:block;}");
}

#[test]
fn single_valued_utility() {
    let mut c = Compiler::new();
    let names = c.generate_classes("p=4").unwrap();
    assert_eq!(names, vec!["_E0".to_string()]);
    assert_eq!(c.get_css().unwrap(), "._E0{padding:1rem;}");
}

#[test]
fn compile_twice_same_fragment_same_output() {
    // Determinism: the same fragment against fresh registries yields
    // identical class names and byte-identical CSS.
    let fragment = "hover:p=2 @md:(w=full h=screen)";
    let mut c1 = Compiler::new();
    let mut c2 = Compiler::new();
    let n1 = c1.generate_classes(fragment).unwrap();
    let n2 = c2.generate_classes(fragment).unwrap();
    assert_eq!(n1, n2);
    let css1 = c1.get_css().unwrap();
    let css2 = c2.get_css().unwrap();
    assert_eq!(css1, css2);
}

#[test]
fn variant_order_canonicalizes() {
    // hover:focus:block and focus:hover:block intern to the same name.
    let mut c = Compiler::new();
    let a = c.generate_classes("hover:focus:block").unwrap();
    let b = c.generate_classes("focus:hover:block").unwrap();
    assert_eq!(a, vec!["_E0".to_string()]);
    assert_eq!(b, vec!["_E0".to_string()]);
    assert_eq!(c.get_css().unwrap(), "._E0:focus:hover{display:block;}");
}

#[test]
fn nested_scopes_accumulate_and_canonicalize() {
    let mut c = Compiler::new();
    let a = c.generate_classes("hover:(focus:block)").unwrap();
    let b = c.generate_classes("focus:hover:block").unwrap();
    assert_eq!(a, b);
}

#[test]
fn group_pairing_drops_empty_slots() {
    // Group slot 0 pairs with value 0, slot 2 with value 2; index 1 is
    // dropped because its variant slot is empty.
    let mut c = Compiler::new();
    let names = c
        .generate_classes("(@sm _ @lg):text-c=(red-500 blue-500 green-500)")
        .unwrap();
    assert_eq!(names, vec!["_E0".to_string(), "_E1".to_string()]);
    let css = c.get_css().unwrap();
    assert_eq!(
        css,
        "@media (min-width:1024px){._E1{color:#22c55e;}}@media (min-width:640px){._E0{color:#ef4444;}}"
    );
}

#[test]
fn group_length_mismatch_is_fatal() {
    let mut c = Compiler::new();
    let r = c.generate_classes("(@sm @lg):text-c=(red-500 blue-500 green-500)");
    assert_eq!(r, Err(CompileError::GroupLengthMismatch));
}

#[test]
fn group_survives_nested_scope_without_its_own_group() {
    // A nested variant scope with no group of its own keeps the
    // governing group for its children.
    let mut c = Compiler::new();
    let names = c.generate_classes("(@sm @lg):(hover:(p=(1 2)))").unwrap();
    assert_eq!(names, vec!["_E0".to_string(), "_E1".to_string()]);
    let css = c.get_css().unwrap();
    assert_eq!(
        css,
        "@media (min-width:1024px){._E1:hover{padding:0.5rem;}}@media (min-width:640px){._E0:hover{padding:0.25rem;}}"
    );
}

#[test]
fn dedup_across_distinct_syntax() {
    // p=4 and (p)=4 produce the same style request and the same name.
    let mut c = Compiler::new();
    let a = c.generate_classes("p=4").unwrap();
    let b = c.generate_classes("(p)=4").unwrap();
    assert_eq!(a, vec!["_E0".to_string()]);
    assert_eq!(b, vec!["_E0".to_string()]);
}

#[test]
fn property_list_fans_out() {
    let mut c = Compiler::new();
    let names = c.generate_classes("(p-t p-b)=2").unwrap();
    assert_eq!(names, vec!["_E0".to_string(), "_E1".to_string()]);
    assert_eq!(
        c.get_css().unwrap(),
        "._E0{padding-top:0.5rem;}._E1{padding-bottom:0.5rem;}"
    );
}

#[test]
fn branch_concatenates_property_prefix() {
    let mut c = Compiler::new();
    let names = c.generate_classes("p-(t=2 b=4)").unwrap();
    assert_eq!(names, vec!["_E0".to_string(), "_E1".to_string()]);
    assert_eq!(
        c.get_css().unwrap(),
        "._E0{padding-top:0.5rem;}._E1{padding-bottom:1rem;}"
    );
}

#[test]
fn raw_value_bypasses_resolution() {
    // A raw [..] value is never resolved: it lands verbatim in the
    // declaration position.
    let mut c = Compiler::new();
    c.generate_classes("text-c=[color:red]").unwrap();
    assert_eq!(c.get_css().unwrap(), "._E0{color:color:red;}");
}

#[test]
fn raw_css_block_passes_through() {
    let mut c = Compiler::new();
    let names = c.generate_classes("[margin:0]").unwrap();
    assert_eq!(names, vec!["_E0".to_string()]);
    assert_eq!(c.get_css().unwrap(), "._E0{margin:0;}");
}

#[test]
fn raw_pseudo_and_raw_media() {
    let mut c = Compiler::new();
    c.generate_classes("[disabled]:block").unwrap();
    assert_eq!(c.get_css().unwrap(), "._E0:disabled{display:block;}");

    let mut c2 = Compiler::new();
    c2.generate_classes("@[print]:block").unwrap();
    assert_eq!(c2.get_css().unwrap(), "@media print{._E0{display:block;}}");
}

#[test]
fn stable_numbering() {
    // The first distinct request is _E0, the second _E1; re-interning
    // never advances the counter.
    let mut c = Compiler::new();
    assert_eq!(c.generate_classes("block").unwrap(), vec!["_E0".to_string()]);
    assert_eq!(c.generate_classes("inline").unwrap(), vec!["_E1".to_string()]);
    assert_eq!(c.generate_classes("block").unwrap(), vec!["_E0".to_string()]);
    assert_eq!(c.generate_classes("flex").unwrap(), vec!["_E2".to_string()]);
}

#[test]
fn duplicate_requests_in_one_fragment() {
    let mut c = Compiler::new();
    let names = c.generate_classes("block block").unwrap();
    assert_eq!(names, vec!["_E0".to_string(), "_E0".to_string()]);
}

#[test]
fn output_is_sorted_not_intern_ordered() {
    // A media-wrapped rule sorts after plain class rules even though it
    // was interned first: '.' orders before '@'.
    let mut c = Compiler::new();
    let names = c.generate_classes("@sm:block p=4").unwrap();
    assert_eq!(names, vec!["_E0".to_string(), "_E1".to_string()]);
    assert_eq!(
        c.get_css().unwrap(),
        "._E1{padding:1rem;}@media (min-width:640px){._E0{display:block;}}"
    );
}

#[test]
fn emit_is_monotone_and_repeatable() {
    let mut c = Compiler::new();
    c.generate_classes("block").unwrap();
    let first = c.get_css().unwrap();
    let second = c.get_css().unwrap();
    assert_eq!(first, second);
    c.generate_classes("p=4").unwrap();
    let third = c.get_css().unwrap();
    assert!(third.contains(&first));
}

#[test]
fn media_and_pseudo_combine() {
    let mut c = Compiler::new();
    c.generate_classes("@dark:hover:text-c=sky-300").unwrap();
    assert_eq!(
        c.get_css().unwrap(),
        "@media (prefers-color-scheme: dark){._E0:hover{color:#7dd3fc;}}"
    );
}

#[test]
fn two_media_queries_join_with_and() {
    let mut c = Compiler::new();
    c.generate_classes("@dark:@sm:block").unwrap();
    assert_eq!(
        c.get_css().unwrap(),
        "@media (prefers-color-scheme: dark) and (min-width:640px){._E0{display:block;}}"
    );
}

#[test]
fn failed_compile_leaves_registry_unchanged() {
    // A fatal error produces no partial output: the registry is as it
    // was before the failing call.
    let mut c = Compiler::new();
    assert_eq!(c.generate_classes("p=4").unwrap(), vec!["_E0".to_string()]);
    assert!(c.generate_classes("(@sm):p=(1 2)").is_err());
    assert_eq!(c.generate_classes("p=4").unwrap(), vec!["_E0".to_string()]);
    assert_eq!(c.generate_classes("block").unwrap(), vec!["_E1".to_string()]);
    assert_eq!(c.get_css().unwrap(), "._E0{padding:1rem;}._E1{display:block;}");
}

#[test]
fn whitespace_separates_expressions() {
    let mut c = Compiler::new();
    let names = c.generate_classes("  block\n\t inline  ").unwrap();
    assert_eq!(names, vec!["_E0".to_string(), "_E1".to_string()]);
}

#[test]
fn utility_without_value_under_variant() {
    let mut c = Compiler::new();
    c.generate_classes("hover:border-solid").unwrap();
    assert_eq!(c.get_css().unwrap(), "._E0:hover{border-style:solid;}");
}

#[test]
fn group_pairing_with_pseudo_slots() {
    // The pairing itself is independent of rendering: bare words in a
    // variant group are pseudo-class slots, and slot 1 still drops.
    let mut c = Compiler::new();
    let names = c
        .generate_classes("(sm _ lg):text-c=(red-500 blue-500 green-500)")
        .unwrap();
    assert_eq!(names, vec!["_E0".to_string(), "_E1".to_string()]);
}

#[test]
fn empty_fragment_compiles_to_nothing() {
    let mut c = Compiler::new();
    let names = c.generate_classes("").unwrap();
    assert!(names.is_empty());
    assert_eq!(c.get_css().unwrap(), "");
    let names = c.generate_classes("   ").unwrap();
    assert!(names.is_empty());
}
