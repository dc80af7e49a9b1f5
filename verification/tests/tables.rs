use utility_css::ast::Value;
use utility_css::error::CompileError;
use utility_css::utils::colors::get_color_value;
use utility_css::utils::get_util_css;
use utility_css::utils::media_queries::get_media_query;
use utility_css::utils::pseudo_classes::get_pseudo;
use utility_css::utils::values::{
    get_align_items_value, get_auto_value, get_border_radius_value, get_flex_dir_value,
    get_flex_shrink_grow_value, get_flex_value, get_flex_wrap_value, get_font_family_value,
    get_font_size_line_height_value, get_font_size_value, get_font_weight_value,
    get_grid_cols_rows_value, get_height_value, get_justify_align_content_value,
    get_justify_items_value, get_line_height_value, get_max_width_value, get_number_value,
    get_overflow_value, get_percentage_value, get_spacing_value, get_text_align_value,
    get_transition_easing_value, get_width_value,
};

fn iden(s: &str) -> Value {
    Value::Iden(s.to_string())
}

fn raw(s: &str) -> Value {
    Value::Raw(s.to_string())
}

#[test]
fn spacing_scale() {
    assert_eq!(get_spacing_value(&iden("0")).unwrap(), "0px");
    assert_eq!(get_spacing_value(&iden("px")).unwrap(), "1px");
    assert_eq!(get_spacing_value(&iden("1")).unwrap(), "0.25rem");
    assert_eq!(get_spacing_value(&iden("2")).unwrap(), "0.5rem");
    assert_eq!(get_spacing_value(&iden("3")).unwrap(), "0.75rem");
    assert_eq!(get_spacing_value(&iden("4")).unwrap(), "1rem");
    assert_eq!(get_spacing_value(&iden("6")).unwrap(), "1.5rem");
    assert_eq!(get_spacing_value(&iden("96")).unwrap(), "24rem");
    assert_eq!(get_spacing_value(&iden("2.5")).unwrap(), "0.625rem");
    assert_eq!(get_spacing_value(&iden("-4")).unwrap(), "-1rem");
    assert_eq!(get_spacing_value(&raw("7vw")).unwrap(), "7vw");
    assert_eq!(
        get_spacing_value(&iden("big")),
        Err(CompileError::UnknownValue)
    );
}

#[test]
fn percentage_values() {
    assert_eq!(get_percentage_value(&iden("full")).unwrap(), "100%");
    assert_eq!(get_percentage_value(&iden("1/2")).unwrap(), "50%");
    assert_eq!(get_percentage_value(&iden("3/4")).unwrap(), "75%");
    assert_eq!(get_percentage_value(&iden("1/3")).unwrap(), "33.333333%");
    assert_eq!(get_percentage_value(&iden("2/3")).unwrap(), "66.666666%");
    assert_eq!(get_percentage_value(&raw("12%")).unwrap(), "12%");
    assert_eq!(
        get_percentage_value(&iden("1/0")),
        Err(CompileError::UnknownValue)
    );
    assert_eq!(
        get_percentage_value(&iden("half")),
        Err(CompileError::UnknownValue)
    );
}

#[test]
fn number_values() {
    assert_eq!(get_number_value(&iden("2"), "px").unwrap(), "2px");
    assert_eq!(get_number_value(&iden("2.50"), "px").unwrap(), "2.5px");
    assert_eq!(get_number_value(&iden("150"), "ms").unwrap(), "150ms");
    assert_eq!(get_number_value(&iden("0"), "px").unwrap(), "0px");
    assert_eq!(get_number_value(&raw("3em"), "px").unwrap(), "3em");
    assert_eq!(
        get_number_value(&iden("x"), "px"),
        Err(CompileError::UnknownValue)
    );
}

#[test]
fn grid_values() {
    assert_eq!(
        get_grid_cols_rows_value(&iden("3")).unwrap(),
        "repeat(3, minmax(0, 1fr))"
    );
    assert_eq!(
        get_grid_cols_rows_value(&iden("12")).unwrap(),
        "repeat(12, minmax(0, 1fr))"
    );
    assert_eq!(
        get_grid_cols_rows_value(&raw("1fr auto")).unwrap(),
        "1fr auto"
    );
    assert_eq!(
        get_grid_cols_rows_value(&iden("99999")),
        Err(CompileError::UnknownValue)
    );
}

#[test]
fn keyword_tables() {
    assert_eq!(get_overflow_value(&iden("scroll")).unwrap(), "scroll");
    assert_eq!(
        get_justify_align_content_value(&iden("between")).unwrap(),
        "space-between"
    );
    assert_eq!(get_justify_items_value(&iden("stretch")).unwrap(), "stretch");
    assert_eq!(get_align_items_value(&iden("start")).unwrap(), "flex-start");
    assert_eq!(get_auto_value(&iden("auto")).unwrap(), "auto");
    assert_eq!(get_width_value(&iden("screen")).unwrap(), "100vw");
    assert_eq!(get_height_value(&iden("screen")).unwrap(), "100vh");
    assert_eq!(get_max_width_value(&iden("3xl")).unwrap(), "48rem");
    assert_eq!(get_flex_value(&iden("1")).unwrap(), "1 1 0%");
    assert_eq!(get_flex_dir_value(&iden("-col")).unwrap(), "column-reverse");
    assert_eq!(get_flex_wrap_value(&iden("-wrap")).unwrap(), "wrap-reverse");
    assert_eq!(get_flex_shrink_grow_value(&iden("0")).unwrap(), "0");
    assert_eq!(get_font_size_value(&iden("xl")).unwrap(), "1.25rem");
    assert_eq!(
        get_font_size_line_height_value(&iden("xl")).unwrap(),
        "1.75rem"
    );
    assert_eq!(get_font_weight_value(&iden("bold")).unwrap(), "700");
    assert_eq!(get_font_weight_value(&iden("700")).unwrap(), "700");
    assert_eq!(get_text_align_value(&iden("justify")).unwrap(), "justify");
    assert_eq!(get_border_radius_value(&iden("full")).unwrap(), "9999px");
    assert_eq!(
        get_transition_easing_value(&iden("in-out")).unwrap(),
        "cubic-bezier(0.4,0,0.2,1)"
    );
    assert_eq!(get_line_height_value(&iden("snug")).unwrap(), "1.375");
    assert!(get_font_family_value(&iden("mono"))
        .unwrap()
        .starts_with("ui-monospace"));
}

#[test]
fn color_palette() {
    assert_eq!(get_color_value(&iden("transparent")).unwrap(), "transparent");
    assert_eq!(get_color_value(&iden("current")).unwrap(), "currentColor");
    assert_eq!(get_color_value(&iden("black")).unwrap(), "#000000");
    assert_eq!(get_color_value(&iden("slate-900")).unwrap(), "#0f172a");
    assert_eq!(get_color_value(&iden("red-500")).unwrap(), "#ef4444");
    assert_eq!(get_color_value(&iden("rose-900")).unwrap(), "#881337");
    assert_eq!(get_color_value(&raw("#abc")).unwrap(), "#abc");
    assert_eq!(
        get_color_value(&iden("mauve-500")),
        Err(CompileError::UnknownValue)
    );
}

#[test]
fn media_query_table() {
    assert_eq!(get_media_query("sm").unwrap(), "(min-width:640px)");
    assert_eq!(get_media_query("dark").unwrap(), "(prefers-color-scheme: dark)");
    assert_eq!(get_media_query("print").unwrap(), "print");
    assert_eq!(
        get_media_query("huge"),
        Err(CompileError::UnknownMediaQuery)
    );
}

#[test]
fn pseudo_class_table() {
    assert_eq!(get_pseudo("hover").unwrap(), ":hover");
    assert_eq!(get_pseudo("first").unwrap(), ":first-child");
    assert_eq!(get_pseudo("odd").unwrap(), ":nth-child(odd)");
    assert_eq!(get_pseudo("sparkly"), Err(CompileError::UnknownPseudo));
}

#[test]
fn util_css_dispatcher() {
    assert_eq!(get_util_css("block", &None).unwrap(), "display:block;");
    assert_eq!(
        get_util_css("center", &None).unwrap(),
        "display:flex;justify-content:center;align-items:center;"
    );
    assert_eq!(
        get_util_css("p-x", &Some(iden("2"))).unwrap(),
        "padding-left:0.5rem;padding-right:0.5rem;"
    );
    assert_eq!(
        get_util_css("m-y", &Some(iden("auto"))).unwrap(),
        "margin-top:auto;margin-bottom:auto;"
    );
    assert_eq!(
        get_util_css("font-s", &Some(iden("xl"))).unwrap(),
        "font-size:1.25rem;line-height:1.75rem;"
    );
    assert_eq!(
        get_util_css("font-s", &Some(raw("13px"))).unwrap(),
        "font-size:13px;"
    );
    assert_eq!(
        get_util_css("w", &Some(iden("1/2"))).unwrap(),
        "width:50%;"
    );
    assert_eq!(
        get_util_css("z", &Some(iden("10"))).unwrap(),
        "z-index:10;"
    );
    assert_eq!(
        get_util_css("border-w", &Some(iden("2"))).unwrap(),
        "border-width:2px;"
    );
    assert_eq!(
        get_util_css("transition-duration", &Some(iden("75"))).unwrap(),
        "transition-duration:75ms;"
    );
    assert_eq!(
        get_util_css("nope", &None),
        Err(CompileError::UnknownProperty)
    );
    assert_eq!(
        get_util_css("nope", &Some(iden("4"))),
        Err(CompileError::UnknownProperty)
    );
    assert_eq!(
        get_util_css("overflow", &Some(iden("bogus"))),
        Err(CompileError::UnknownValue)
    );
    // a flag utility given a value is an unknown property/value shape
    assert_eq!(
        get_util_css("block", &Some(iden("4"))),
        Err(CompileError::UnknownProperty)
    );
}
