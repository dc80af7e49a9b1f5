//! The color palette: named colors and shaded families.

use vstd::prelude::*;
use vstd::string::StringExecFns;
use crate::ast::{Value, ValueV};
use crate::error::CompileError;
use crate::text::str_eq;
use crate::utils::resolved_as;

verus! {

/// The outcome of one executable palette row lookup.
pub open spec fn row_resolved(r: Option<String>, o: Option<Seq<char>>) -> bool {
    match r {
        Some(s) => o == Some(s@),
        None => o is None,
    }
}

/// The `named` rows of the palette.
pub open spec fn spec_named_color(s: Seq<char>) -> Option<Seq<char>> {
    if s == "transparent"@ {
        Some("transparent"@)
    } else if s == "inherit"@ {
        Some("inherit"@)
    } else if s == "current"@ {
        Some("currentColor"@)
    } else if s == "black"@ {
        Some("#000000"@)
    } else if s == "white"@ {
        Some("#ffffff"@)
    } else {
        None
    }
}

fn named_color(s: &str) -> (r: Option<String>)
    ensures
        row_resolved(r, spec_named_color(s@)),
{
    if str_eq(s, "transparent") {
        Some(String::from_str("transparent"))
    } else if str_eq(s, "inherit") {
        Some(String::from_str("inherit"))
    } else if str_eq(s, "current") {
        Some(String::from_str("currentColor"))
    } else if str_eq(s, "black") {
        Some(String::from_str("#000000"))
    } else if str_eq(s, "white") {
        Some(String::from_str("#ffffff"))
    } else {
        None
    }
}

/// The `slate` rows of the palette.
pub open spec fn spec_slate_color(s: Seq<char>) -> Option<Seq<char>> {
    if s == "slate-50"@ {
        Some("#f8fafc"@)
    } else if s == "slate-100"@ {
        Some("#f1f5f9"@)
    } else if s == "slate-200"@ {
        Some("#e2e8f0"@)
    } else if s == "slate-300"@ {
        Some("#cbd5e1"@)
    } else if s == "slate-400"@ {
        Some("#94a3b8"@)
    } else if s == "slate-500"@ {
        Some("#64748b"@)
    } else if s == "slate-600"@ {
        Some("#475569"@)
    } else if s == "slate-700"@ {
        Some("#334155"@)
    } else if s == "slate-800"@ {
        Some("#1e293b"@)
    } else if s == "slate-900"@ {
        Some("#0f172a"@)
    } else {
        None
    }
}

fn slate_color(s: &str) -> (r: Option<String>)
    ensures
        row_resolved(r, spec_slate_color(s@)),
{
    if str_eq(s, "slate-50") {
        Some(String::from_str("#f8fafc"))
    } else if str_eq(s, "slate-100") {
        Some(String::from_str("#f1f5f9"))
    } else if str_eq(s, "slate-200") {
        Some(String::from_str("#e2e8f0"))
    } else if str_eq(s, "slate-300") {
        Some(String::from_str("#cbd5e1"))
    } else if str_eq(s, "slate-400") {
        Some(String::from_str("#94a3b8"))
    } else if str_eq(s, "slate-500") {
        Some(String::from_str("#64748b"))
    } else if str_eq(s, "slate-600") {
        Some(String::from_str("#475569"))
    } else if str_eq(s, "slate-700") {
        Some(String::from_str("#334155"))
    } else if str_eq(s, "slate-800") {
        Some(String::from_str("#1e293b"))
    } else if str_eq(s, "slate-900") {
        Some(String::from_str("#0f172a"))
    } else {
        None
    }
}

/// The `gray` rows of the palette.
pub open spec fn spec_gray_color(s: Seq<char>) -> Option<Seq<char>> {
    if s == "gray-50"@ {
        Some("#f9fafb"@)
    } else if s == "gray-100"@ {
        Some("#f3f4f6"@)
    } else if s == "gray-200"@ {
        Some("#e5e7eb"@)
    } else if s == "gray-300"@ {
        Some("#d1d5db"@)
    } else if s == "gray-400"@ {
        Some("#9ca3af"@)
    } else if s == "gray-500"@ {
        Some("#6b7280"@)
    } else if s == "gray-600"@ {
        Some("#4b5563"@)
    } else if s == "gray-700"@ {
        Some("#374151"@)
    } else if s == "gray-800"@ {
        Some("#1f2937"@)
    } else if s == "gray-900"@ {
        Some("#111827"@)
    } else {
        None
    }
}

fn gray_color(s: &str) -> (r: Option<String>)
    ensures
        row_resolved(r, spec_gray_color(s@)),
{
    if str_eq(s, "gray-50") {
        Some(String::from_str("#f9fafb"))
    } else if str_eq(s, "gray-100") {
        Some(String::from_str("#f3f4f6"))
    } else if str_eq(s, "gray-200") {
        Some(String::from_str("#e5e7eb"))
    } else if str_eq(s, "gray-300") {
        Some(String::from_str("#d1d5db"))
    } else if str_eq(s, "gray-400") {
        Some(String::from_str("#9ca3af"))
    } else if str_eq(s, "gray-500") {
        Some(String::from_str("#6b7280"))
    } else if str_eq(s, "gray-600") {
        Some(String::from_str("#4b5563"))
    } else if str_eq(s, "gray-700") {
        Some(String::from_str("#374151"))
    } else if str_eq(s, "gray-800") {
        Some(String::from_str("#1f2937"))
    } else if str_eq(s, "gray-900") {
        Some(String::from_str("#111827"))
    } else {
        None
    }
}

/// The `zinc` rows of the palette.
pub open spec fn spec_zinc_color(s: Seq<char>) -> Option<Seq<char>> {
    if s == "zinc-50"@ {
        Some("#fafafa"@)
    } else if s == "zinc-100"@ {
        Some("#f4f4f5"@)
    } else if s == "zinc-200"@ {
        Some("#e4e4e7"@)
    } else if s == "zinc-300"@ {
        Some("#d4d4d8"@)
    } else if s == "zinc-400"@ {
        Some("#a1a1aa"@)
    } else if s == "zinc-500"@ {
        Some("#71717a"@)
    } else if s == "zinc-600"@ {
        Some("#52525b"@)
    } else if s == "zinc-700"@ {
        Some("#3f3f46"@)
    } else if s == "zinc-800"@ {
        Some("#27272a"@)
    } else if s == "zinc-900"@ {
        Some("#18181b"@)
    } else {
        None
    }
}

fn zinc_color(s: &str) -> (r: Option<String>)
    ensures
        row_resolved(r, spec_zinc_color(s@)),
{
    if str_eq(s, "zinc-50") {
        Some(String::from_str("#fafafa"))
    } else if str_eq(s, "zinc-100") {
        Some(String::from_str("#f4f4f5"))
    } else if str_eq(s, "zinc-200") {
        Some(String::from_str("#e4e4e7"))
    } else if str_eq(s, "zinc-300") {
        Some(String::from_str("#d4d4d8"))
    } else if str_eq(s, "zinc-400") {
        Some(String::from_str("#a1a1aa"))
    } else if str_eq(s, "zinc-500") {
        Some(String::from_str("#71717a"))
    } else if str_eq(s, "zinc-600") {
        Some(String::from_str("#52525b"))
    } else if str_eq(s, "zinc-700") {
        Some(String::from_str("#3f3f46"))
    } else if str_eq(s, "zinc-800") {
        Some(String::from_str("#27272a"))
    } else if str_eq(s, "zinc-900") {
        Some(String::from_str("#18181b"))
    } else {
        None
    }
}

/// The `neutral` rows of the palette.
pub open spec fn spec_neutral_color(s: Seq<char>) -> Option<Seq<char>> {
    if s == "neutral-50"@ {
        Some("#fafafa"@)
    } else if s == "neutral-100"@ {
        Some("#f5f5f5"@)
    } else if s == "neutral-200"@ {
        Some("#e5e5e5"@)
    } else if s == "neutral-300"@ {
        Some("#d4d4d4"@)
    } else if s == "neutral-400"@ {
        Some("#a3a3a3"@)
    } else if s == "neutral-500"@ {
        Some("#737373"@)
    } else if s == "neutral-600"@ {
        Some("#525252"@)
    } else if s == "neutral-700"@ {
        Some("#404040"@)
    } else if s == "neutral-800"@ {
        Some("#262626"@)
    } else if s == "neutral-900"@ {
        Some("#171717"@)
    } else {
        None
    }
}

fn neutral_color(s: &str) -> (r: Option<String>)
    ensures
        row_resolved(r, spec_neutral_color(s@)),
{
    if str_eq(s, "neutral-50") {
        Some(String::from_str("#fafafa"))
    } else if str_eq(s, "neutral-100") {
        Some(String::from_str("#f5f5f5"))
    } else if str_eq(s, "neutral-200") {
        Some(String::from_str("#e5e5e5"))
    } else if str_eq(s, "neutral-300") {
        Some(String::from_str("#d4d4d4"))
    } else if str_eq(s, "neutral-400") {
        Some(String::from_str("#a3a3a3"))
    } else if str_eq(s, "neutral-500") {
        Some(String::from_str("#737373"))
    } else if str_eq(s, "neutral-600") {
        Some(String::from_str("#525252"))
    } else if str_eq(s, "neutral-700") {
        Some(String::from_str("#404040"))
    } else if str_eq(s, "neutral-800") {
        Some(String::from_str("#262626"))
    } else if str_eq(s, "neutral-900") {
        Some(String::from_str("#171717"))
    } else {
        None
    }
}

/// The `stone` rows of the palette.
pub open spec fn spec_stone_color(s: Seq<char>) -> Option<Seq<char>> {
    if s == "stone-50"@ {
        Some("#fafaf9"@)
    } else if s == "stone-100"@ {
        Some("#f5f5f4"@)
    } else if s == "stone-200"@ {
        Some("#e7e5e4"@)
    } else if s == "stone-300"@ {
        Some("#d6d3d1"@)
    } else if s == "stone-400"@ {
        Some("#a8a29e"@)
    } else if s == "stone-500"@ {
        Some("#78716c"@)
    } else if s == "stone-600"@ {
        Some("#57534e"@)
    } else if s == "stone-700"@ {
        Some("#44403c"@)
    } else if s == "stone-800"@ {
        Some("#292524"@)
    } else if s == "stone-900"@ {
        Some("#1c1917"@)
    } else {
        None
    }
}

fn stone_color(s: &str) -> (r: Option<String>)
    ensures
        row_resolved(r, spec_stone_color(s@)),
{
    if str_eq(s, "stone-50") {
        Some(String::from_str("#fafaf9"))
    } else if str_eq(s, "stone-100") {
        Some(String::from_str("#f5f5f4"))
    } else if str_eq(s, "stone-200") {
        Some(String::from_str("#e7e5e4"))
    } else if str_eq(s, "stone-300") {
        Some(String::from_str("#d6d3d1"))
    } else if str_eq(s, "stone-400") {
        Some(String::from_str("#a8a29e"))
    } else if str_eq(s, "stone-500") {
        Some(String::from_str("#78716c"))
    } else if str_eq(s, "stone-600") {
        Some(String::from_str("#57534e"))
    } else if str_eq(s, "stone-700") {
        Some(String::from_str("#44403c"))
    } else if str_eq(s, "stone-800") {
        Some(String::from_str("#292524"))
    } else if str_eq(s, "stone-900") {
        Some(String::from_str("#1c1917"))
    } else {
        None
    }
}

/// The `red` rows of the palette.
pub open spec fn spec_red_color(s: Seq<char>) -> Option<Seq<char>> {
    if s == "red-50"@ {
        Some("#fef2f2"@)
    } else if s == "red-100"@ {
        Some("#fee2e2"@)
    } else if s == "red-200"@ {
        Some("#fecaca"@)
    } else if s == "red-300"@ {
        Some("#fca5a5"@)
    } else if s == "red-400"@ {
        Some("#f87171"@)
    } else if s == "red-500"@ {
        Some("#ef4444"@)
    } else if s == "red-600"@ {
        Some("#dc2626"@)
    } else if s == "red-700"@ {
        Some("#b91c1c"@)
    } else if s == "red-800"@ {
        Some("#991b1b"@)
    } else if s == "red-900"@ {
        Some("#7f1d1d"@)
    } else {
        None
    }
}

fn red_color(s: &str) -> (r: Option<String>)
    ensures
        row_resolved(r, spec_red_color(s@)),
{
    if str_eq(s, "red-50") {
        Some(String::from_str("#fef2f2"))
    } else if str_eq(s, "red-100") {
        Some(String::from_str("#fee2e2"))
    } else if str_eq(s, "red-200") {
        Some(String::from_str("#fecaca"))
    } else if str_eq(s, "red-300") {
        Some(String::from_str("#fca5a5"))
    } else if str_eq(s, "red-400") {
        Some(String::from_str("#f87171"))
    } else if str_eq(s, "red-500") {
        Some(String::from_str("#ef4444"))
    } else if str_eq(s, "red-600") {
        Some(String::from_str("#dc2626"))
    } else if str_eq(s, "red-700") {
        Some(String::from_str("#b91c1c"))
    } else if str_eq(s, "red-800") {
        Some(String::from_str("#991b1b"))
    } else if str_eq(s, "red-900") {
        Some(String::from_str("#7f1d1d"))
    } else {
        None
    }
}

/// The `orange` rows of the palette.
pub open spec fn spec_orange_color(s: Seq<char>) -> Option<Seq<char>> {
    if s == "orange-50"@ {
        Some("#fff7ed"@)
    } else if s == "orange-100"@ {
        Some("#ffedd5"@)
    } else if s == "orange-200"@ {
        Some("#fed7aa"@)
    } else if s == "orange-300"@ {
        Some("#fdba74"@)
    } else if s == "orange-400"@ {
        Some("#fb923c"@)
    } else if s == "orange-500"@ {
        Some("#f97316"@)
    } else if s == "orange-600"@ {
        Some("#ea580c"@)
    } else if s == "orange-700"@ {
        Some("#c2410c"@)
    } else if s == "orange-800"@ {
        Some("#9a3412"@)
    } else if s == "orange-900"@ {
        Some("#7c2d12"@)
    } else {
        None
    }
}

fn orange_color(s: &str) -> (r: Option<String>)
    ensures
        row_resolved(r, spec_orange_color(s@)),
{
    if str_eq(s, "orange-50") {
        Some(String::from_str("#fff7ed"))
    } else if str_eq(s, "orange-100") {
        Some(String::from_str("#ffedd5"))
    } else if str_eq(s, "orange-200") {
        Some(String::from_str("#fed7aa"))
    } else if str_eq(s, "orange-300") {
        Some(String::from_str("#fdba74"))
    } else if str_eq(s, "orange-400") {
        Some(String::from_str("#fb923c"))
    } else if str_eq(s, "orange-500") {
        Some(String::from_str("#f97316"))
    } else if str_eq(s, "orange-600") {
        Some(String::from_str("#ea580c"))
    } else if str_eq(s, "orange-700") {
        Some(String::from_str("#c2410c"))
    } else if str_eq(s, "orange-800") {
        Some(String::from_str("#9a3412"))
    } else if str_eq(s, "orange-900") {
        Some(String::from_str("#7c2d12"))
    } else {
        None
    }
}

/// The `amber` rows of the palette.
pub open spec fn spec_amber_color(s: Seq<char>) -> Option<Seq<char>> {
    if s == "amber-50"@ {
        Some("#fffbeb"@)
    } else if s == "amber-100"@ {
        Some("#fef3c7"@)
    } else if s == "amber-200"@ {
        Some("#fde68a"@)
    } else if s == "amber-300"@ {
        Some("#fcd34d"@)
    } else if s == "amber-400"@ {
        Some("#fbbf24"@)
    } else if s == "amber-500"@ {
        Some("#f59e0b"@)
    } else if s == "amber-600"@ {
        Some("#d97706"@)
    } else if s == "amber-700"@ {
        Some("#b45309"@)
    } else if s == "amber-800"@ {
        Some("#92400e"@)
    } else if s == "amber-900"@ {
        Some("#78350f"@)
    } else {
        None
    }
}

fn amber_color(s: &str) -> (r: Option<String>)
    ensures
        row_resolved(r, spec_amber_color(s@)),
{
    if str_eq(s, "amber-50") {
        Some(String::from_str("#fffbeb"))
    } else if str_eq(s, "amber-100") {
        Some(String::from_str("#fef3c7"))
    } else if str_eq(s, "amber-200") {
        Some(String::from_str("#fde68a"))
    } else if str_eq(s, "amber-300") {
        Some(String::from_str("#fcd34d"))
    } else if str_eq(s, "amber-400") {
        Some(String::from_str("#fbbf24"))
    } else if str_eq(s, "amber-500") {
        Some(String::from_str("#f59e0b"))
    } else if str_eq(s, "amber-600") {
        Some(String::from_str("#d97706"))
    } else if str_eq(s, "amber-700") {
        Some(String::from_str("#b45309"))
    } else if str_eq(s, "amber-800") {
        Some(String::from_str("#92400e"))
    } else if str_eq(s, "amber-900") {
        Some(String::from_str("#78350f"))
    } else {
        None
    }
}

/// The `yellow` rows of the palette.
pub open spec fn spec_yellow_color(s: Seq<char>) -> Option<Seq<char>> {
    if s == "yellow-50"@ {
        Some("#fefce8"@)
    } else if s == "yellow-100"@ {
        Some("#fef9c3"@)
    } else if s == "yellow-200"@ {
        Some("#fef08a"@)
    } else if s == "yellow-300"@ {
        Some("#fde047"@)
    } else if s == "yellow-400"@ {
        Some("#facc15"@)
    } else if s == "yellow-500"@ {
        Some("#eab308"@)
    } else if s == "yellow-600"@ {
        Some("#ca8a04"@)
    } else if s == "yellow-700"@ {
        Some("#a16207"@)
    } else if s == "yellow-800"@ {
        Some("#854d0e"@)
    } else if s == "yellow-900"@ {
        Some("#713f12"@)
    } else {
        None
    }
}

fn yellow_color(s: &str) -> (r: Option<String>)
    ensures
        row_resolved(r, spec_yellow_color(s@)),
{
    if str_eq(s, "yellow-50") {
        Some(String::from_str("#fefce8"))
    } else if str_eq(s, "yellow-100") {
        Some(String::from_str("#fef9c3"))
    } else if str_eq(s, "yellow-200") {
        Some(String::from_str("#fef08a"))
    } else if str_eq(s, "yellow-300") {
        Some(String::from_str("#fde047"))
    } else if str_eq(s, "yellow-400") {
        Some(String::from_str("#facc15"))
    } else if str_eq(s, "yellow-500") {
        Some(String::from_str("#eab308"))
    } else if str_eq(s, "yellow-600") {
        Some(String::from_str("#ca8a04"))
    } else if str_eq(s, "yellow-700") {
        Some(String::from_str("#a16207"))
    } else if str_eq(s, "yellow-800") {
        Some(String::from_str("#854d0e"))
    } else if str_eq(s, "yellow-900") {
        Some(String::from_str("#713f12"))
    } else {
        None
    }
}

/// The `lime` rows of the palette.
pub open spec fn spec_lime_color(s: Seq<char>) -> Option<Seq<char>> {
    if s == "lime-50"@ {
        Some("#f7fee7"@)
    } else if s == "lime-100"@ {
        Some("#ecfccb"@)
    } else if s == "lime-200"@ {
        Some("#d9f99d"@)
    } else if s == "lime-300"@ {
        Some("#bef264"@)
    } else if s == "lime-400"@ {
        Some("#a3e635"@)
    } else if s == "lime-500"@ {
        Some("#84cc16"@)
    } else if s == "lime-600"@ {
        Some("#65a30d"@)
    } else if s == "lime-700"@ {
        Some("#4d7c0f"@)
    } else if s == "lime-800"@ {
        Some("#3f6212"@)
    } else if s == "lime-900"@ {
        Some("#365314"@)
    } else {
        None
    }
}

fn lime_color(s: &str) -> (r: Option<String>)
    ensures
        row_resolved(r, spec_lime_color(s@)),
{
    if str_eq(s, "lime-50") {
        Some(String::from_str("#f7fee7"))
    } else if str_eq(s, "lime-100") {
        Some(String::from_str("#ecfccb"))
    } else if str_eq(s, "lime-200") {
        Some(String::from_str("#d9f99d"))
    } else if str_eq(s, "lime-300") {
        Some(String::from_str("#bef264"))
    } else if str_eq(s, "lime-400") {
        Some(String::from_str("#a3e635"))
    } else if str_eq(s, "lime-500") {
        Some(String::from_str("#84cc16"))
    } else if str_eq(s, "lime-600") {
        Some(String::from_str("#65a30d"))
    } else if str_eq(s, "lime-700") {
        Some(String::from_str("#4d7c0f"))
    } else if str_eq(s, "lime-800") {
        Some(String::from_str("#3f6212"))
    } else if str_eq(s, "lime-900") {
        Some(String::from_str("#365314"))
    } else {
        None
    }
}

/// The `green` rows of the palette.
pub open spec fn spec_green_color(s: Seq<char>) -> Option<Seq<char>> {
    if s == "green-50"@ {
        Some("#f0fdf4"@)
    } else if s == "green-100"@ {
        Some("#dcfce7"@)
    } else if s == "green-200"@ {
        Some("#bbf7d0"@)
    } else if s == "green-300"@ {
        Some("#86efac"@)
    } else if s == "green-400"@ {
        Some("#4ade80"@)
    } else if s == "green-500"@ {
        Some("#22c55e"@)
    } else if s == "green-600"@ {
        Some("#16a34a"@)
    } else if s == "green-700"@ {
        Some("#15803d"@)
    } else if s == "green-800"@ {
        Some("#166534"@)
    } else if s == "green-900"@ {
        Some("#14532d"@)
    } else {
        None
    }
}

fn green_color(s: &str) -> (r: Option<String>)
    ensures
        row_resolved(r, spec_green_color(s@)),
{
    if str_eq(s, "green-50") {
        Some(String::from_str("#f0fdf4"))
    } else if str_eq(s, "green-100") {
        Some(String::from_str("#dcfce7"))
    } else if str_eq(s, "green-200") {
        Some(String::from_str("#bbf7d0"))
    } else if str_eq(s, "green-300") {
        Some(String::from_str("#86efac"))
    } else if str_eq(s, "green-400") {
        Some(String::from_str("#4ade80"))
    } else if str_eq(s, "green-500") {
        Some(String::from_str("#22c55e"))
    } else if str_eq(s, "green-600") {
        Some(String::from_str("#16a34a"))
    } else if str_eq(s, "green-700") {
        Some(String::from_str("#15803d"))
    } else if str_eq(s, "green-800") {
        Some(String::from_str("#166534"))
    } else if str_eq(s, "green-900") {
        Some(String::from_str("#14532d"))
    } else {
        None
    }
}

/// The `emerald` rows of the palette.
pub open spec fn spec_emerald_color(s: Seq<char>) -> Option<Seq<char>> {
    if s == "emerald-50"@ {
        Some("#ecfdf5"@)
    } else if s == "emerald-100"@ {
        Some("#d1fae5"@)
    } else if s == "emerald-200"@ {
        Some("#a7f3d0"@)
    } else if s == "emerald-300"@ {
        Some("#6ee7b7"@)
    } else if s == "emerald-400"@ {
        Some("#34d399"@)
    } else if s == "emerald-500"@ {
        Some("#10b981"@)
    } else if s == "emerald-600"@ {
        Some("#059669"@)
    } else if s == "emerald-700"@ {
        Some("#047857"@)
    } else if s == "emerald-800"@ {
        Some("#065f46"@)
    } else if s == "emerald-900"@ {
        Some("#064e3b"@)
    } else {
        None
    }
}

fn emerald_color(s: &str) -> (r: Option<String>)
    ensures
        row_resolved(r, spec_emerald_color(s@)),
{
    if str_eq(s, "emerald-50") {
        Some(String::from_str("#ecfdf5"))
    } else if str_eq(s, "emerald-100") {
        Some(String::from_str("#d1fae5"))
    } else if str_eq(s, "emerald-200") {
        Some(String::from_str("#a7f3d0"))
    } else if str_eq(s, "emerald-300") {
        Some(String::from_str("#6ee7b7"))
    } else if str_eq(s, "emerald-400") {
        Some(String::from_str("#34d399"))
    } else if str_eq(s, "emerald-500") {
        Some(String::from_str("#10b981"))
    } else if str_eq(s, "emerald-600") {
        Some(String::from_str("#059669"))
    } else if str_eq(s, "emerald-700") {
        Some(String::from_str("#047857"))
    } else if str_eq(s, "emerald-800") {
        Some(String::from_str("#065f46"))
    } else if str_eq(s, "emerald-900") {
        Some(String::from_str("#064e3b"))
    } else {
        None
    }
}

/// The `teal` rows of the palette.
pub open spec fn spec_teal_color(s: Seq<char>) -> Option<Seq<char>> {
    if s == "teal-50"@ {
        Some("#f0fdfa"@)
    } else if s == "teal-100"@ {
        Some("#ccfbf1"@)
    } else if s == "teal-200"@ {
        Some("#99f6e4"@)
    } else if s == "teal-300"@ {
        Some("#5eead4"@)
    } else if s == "teal-400"@ {
        Some("#2dd4bf"@)
    } else if s == "teal-500"@ {
        Some("#14b8a6"@)
    } else if s == "teal-600"@ {
        Some("#0d9488"@)
    } else if s == "teal-700"@ {
        Some("#0f766e"@)
    } else if s == "teal-800"@ {
        Some("#115e59"@)
    } else if s == "teal-900"@ {
        Some("#134e4a"@)
    } else {
        None
    }
}

fn teal_color(s: &str) -> (r: Option<String>)
    ensures
        row_resolved(r, spec_teal_color(s@)),
{
    if str_eq(s, "teal-50") {
        Some(String::from_str("#f0fdfa"))
    } else if str_eq(s, "teal-100") {
        Some(String::from_str("#ccfbf1"))
    } else if str_eq(s, "teal-200") {
        Some(String::from_str("#99f6e4"))
    } else if str_eq(s, "teal-300") {
        Some(String::from_str("#5eead4"))
    } else if str_eq(s, "teal-400") {
        Some(String::from_str("#2dd4bf"))
    } else if str_eq(s, "teal-500") {
        Some(String::from_str("#14b8a6"))
    } else if str_eq(s, "teal-600") {
        Some(String::from_str("#0d9488"))
    } else if str_eq(s, "teal-700") {
        Some(String::from_str("#0f766e"))
    } else if str_eq(s, "teal-800") {
        Some(String::from_str("#115e59"))
    } else if str_eq(s, "teal-900") {
        Some(String::from_str("#134e4a"))
    } else {
        None
    }
}

/// The `cyan` rows of the palette.
pub open spec fn spec_cyan_color(s: Seq<char>) -> Option<Seq<char>> {
    if s == "cyan-50"@ {
        Some("#ecfeff"@)
    } else if s == "cyan-100"@ {
        Some("#cffafe"@)
    } else if s == "cyan-200"@ {
        Some("#a5f3fc"@)
    } else if s == "cyan-300"@ {
        Some("#67e8f9"@)
    } else if s == "cyan-400"@ {
        Some("#22d3ee"@)
    } else if s == "cyan-500"@ {
        Some("#06b6d4"@)
    } else if s == "cyan-600"@ {
        Some("#0891b2"@)
    } else if s == "cyan-700"@ {
        Some("#0e7490"@)
    } else if s == "cyan-800"@ {
        Some("#155e75"@)
    } else if s == "cyan-900"@ {
        Some("#164e63"@)
    } else {
        None
    }
}

fn cyan_color(s: &str) -> (r: Option<String>)
    ensures
        row_resolved(r, spec_cyan_color(s@)),
{
    if str_eq(s, "cyan-50") {
        Some(String::from_str("#ecfeff"))
    } else if str_eq(s, "cyan-100") {
        Some(String::from_str("#cffafe"))
    } else if str_eq(s, "cyan-200") {
        Some(String::from_str("#a5f3fc"))
    } else if str_eq(s, "cyan-300") {
        Some(String::from_str("#67e8f9"))
    } else if str_eq(s, "cyan-400") {
        Some(String::from_str("#22d3ee"))
    } else if str_eq(s, "cyan-500") {
        Some(String::from_str("#06b6d4"))
    } else if str_eq(s, "cyan-600") {
        Some(String::from_str("#0891b2"))
    } else if str_eq(s, "cyan-700") {
        Some(String::from_str("#0e7490"))
    } else if str_eq(s, "cyan-800") {
        Some(String::from_str("#155e75"))
    } else if str_eq(s, "cyan-900") {
        Some(String::from_str("#164e63"))
    } else {
        None
    }
}

/// The `sky` rows of the palette.
pub open spec fn spec_sky_color(s: Seq<char>) -> Option<Seq<char>> {
    if s == "sky-50"@ {
        Some("#f0f9ff"@)
    } else if s == "sky-100"@ {
        Some("#e0f2fe"@)
    } else if s == "sky-200"@ {
        Some("#bae6fd"@)
    } else if s == "sky-300"@ {
        Some("#7dd3fc"@)
    } else if s == "sky-400"@ {
        Some("#38bdf8"@)
    } else if s == "sky-500"@ {
        Some("#0ea5e9"@)
    } else if s == "sky-600"@ {
        Some("#0284c7"@)
    } else if s == "sky-700"@ {
        Some("#0369a1"@)
    } else if s == "sky-800"@ {
        Some("#075985"@)
    } else if s == "sky-900"@ {
        Some("#0c4a6e"@)
    } else {
        None
    }
}

fn sky_color(s: &str) -> (r: Option<String>)
    ensures
        row_resolved(r, spec_sky_color(s@)),
{
    if str_eq(s, "sky-50") {
        Some(String::from_str("#f0f9ff"))
    } else if str_eq(s, "sky-100") {
        Some(String::from_str("#e0f2fe"))
    } else if str_eq(s, "sky-200") {
        Some(String::from_str("#bae6fd"))
    } else if str_eq(s, "sky-300") {
        Some(String::from_str("#7dd3fc"))
    } else if str_eq(s, "sky-400") {
        Some(String::from_str("#38bdf8"))
    } else if str_eq(s, "sky-500") {
        Some(String::from_str("#0ea5e9"))
    } else if str_eq(s, "sky-600") {
        Some(String::from_str("#0284c7"))
    } else if str_eq(s, "sky-700") {
        Some(String::from_str("#0369a1"))
    } else if str_eq(s, "sky-800") {
        Some(String::from_str("#075985"))
    } else if str_eq(s, "sky-900") {
        Some(String::from_str("#0c4a6e"))
    } else {
        None
    }
}

/// The `blue` rows of the palette.
pub open spec fn spec_blue_color(s: Seq<char>) -> Option<Seq<char>> {
    if s == "blue-50"@ {
        Some("#eff6ff"@)
    } else if s == "blue-100"@ {
        Some("#dbeafe"@)
    } else if s == "blue-200"@ {
        Some("#bfdbfe"@)
    } else if s == "blue-300"@ {
        Some("#93c5fd"@)
    } else if s == "blue-400"@ {
        Some("#60a5fa"@)
    } else if s == "blue-500"@ {
        Some("#3b82f6"@)
    } else if s == "blue-600"@ {
        Some("#2563eb"@)
    } else if s == "blue-700"@ {
        Some("#1d4ed8"@)
    } else if s == "blue-800"@ {
        Some("#1e40af"@)
    } else if s == "blue-900"@ {
        Some("#1e3a8a"@)
    } else {
        None
    }
}

fn blue_color(s: &str) -> (r: Option<String>)
    ensures
        row_resolved(r, spec_blue_color(s@)),
{
    if str_eq(s, "blue-50") {
        Some(String::from_str("#eff6ff"))
    } else if str_eq(s, "blue-100") {
        Some(String::from_str("#dbeafe"))
    } else if str_eq(s, "blue-200") {
        Some(String::from_str("#bfdbfe"))
    } else if str_eq(s, "blue-300") {
        Some(String::from_str("#93c5fd"))
    } else if str_eq(s, "blue-400") {
        Some(String::from_str("#60a5fa"))
    } else if str_eq(s, "blue-500") {
        Some(String::from_str("#3b82f6"))
    } else if str_eq(s, "blue-600") {
        Some(String::from_str("#2563eb"))
    } else if str_eq(s, "blue-700") {
        Some(String::from_str("#1d4ed8"))
    } else if str_eq(s, "blue-800") {
        Some(String::from_str("#1e40af"))
    } else if str_eq(s, "blue-900") {
        Some(String::from_str("#1e3a8a"))
    } else {
        None
    }
}

/// The `indigo` rows of the palette.
pub open spec fn spec_indigo_color(s: Seq<char>) -> Option<Seq<char>> {
    if s == "indigo-50"@ {
        Some("#eef2ff"@)
    } else if s == "indigo-100"@ {
        Some("#e0e7ff"@)
    } else if s == "indigo-200"@ {
        Some("#c7d2fe"@)
    } else if s == "indigo-300"@ {
        Some("#a5b4fc"@)
    } else if s == "indigo-400"@ {
        Some("#818cf8"@)
    } else if s == "indigo-500"@ {
        Some("#6366f1"@)
    } else if s == "indigo-600"@ {
        Some("#4f46e5"@)
    } else if s == "indigo-700"@ {
        Some("#4338ca"@)
    } else if s == "indigo-800"@ {
        Some("#3730a3"@)
    } else if s == "indigo-900"@ {
        Some("#312e81"@)
    } else {
        None
    }
}

fn indigo_color(s: &str) -> (r: Option<String>)
    ensures
        row_resolved(r, spec_indigo_color(s@)),
{
    if str_eq(s, "indigo-50") {
        Some(String::from_str("#eef2ff"))
    } else if str_eq(s, "indigo-100") {
        Some(String::from_str("#e0e7ff"))
    } else if str_eq(s, "indigo-200") {
        Some(String::from_str("#c7d2fe"))
    } else if str_eq(s, "indigo-300") {
        Some(String::from_str("#a5b4fc"))
    } else if str_eq(s, "indigo-400") {
        Some(String::from_str("#818cf8"))
    } else if str_eq(s, "indigo-500") {
        Some(String::from_str("#6366f1"))
    } else if str_eq(s, "indigo-600") {
        Some(String::from_str("#4f46e5"))
    } else if str_eq(s, "indigo-700") {
        Some(String::from_str("#4338ca"))
    } else if str_eq(s, "indigo-800") {
        Some(String::from_str("#3730a3"))
    } else if str_eq(s, "indigo-900") {
        Some(String::from_str("#312e81"))
    } else {
        None
    }
}

/// The `violet` rows of the palette.
pub open spec fn spec_violet_color(s: Seq<char>) -> Option<Seq<char>> {
    if s == "violet-50"@ {
        Some("#f5f3ff"@)
    } else if s == "violet-100"@ {
        Some("#ede9fe"@)
    } else if s == "violet-200"@ {
        Some("#ddd6fe"@)
    } else if s == "violet-300"@ {
        Some("#c4b5fd"@)
    } else if s == "violet-400"@ {
        Some("#a78bfa"@)
    } else if s == "violet-500"@ {
        Some("#8b5cf6"@)
    } else if s == "violet-600"@ {
        Some("#7c3aed"@)
    } else if s == "violet-700"@ {
        Some("#6d28d9"@)
    } else if s == "violet-800"@ {
        Some("#5b21b6"@)
    } else if s == "violet-900"@ {
        Some("#4c1d95"@)
    } else {
        None
    }
}

fn violet_color(s: &str) -> (r: Option<String>)
    ensures
        row_resolved(r, spec_violet_color(s@)),
{
    if str_eq(s, "violet-50") {
        Some(String::from_str("#f5f3ff"))
    } else if str_eq(s, "violet-100") {
        Some(String::from_str("#ede9fe"))
    } else if str_eq(s, "violet-200") {
        Some(String::from_str("#ddd6fe"))
    } else if str_eq(s, "violet-300") {
        Some(String::from_str("#c4b5fd"))
    } else if str_eq(s, "violet-400") {
        Some(String::from_str("#a78bfa"))
    } else if str_eq(s, "violet-500") {
        Some(String::from_str("#8b5cf6"))
    } else if str_eq(s, "violet-600") {
        Some(String::from_str("#7c3aed"))
    } else if str_eq(s, "violet-700") {
        Some(String::from_str("#6d28d9"))
    } else if str_eq(s, "violet-800") {
        Some(String::from_str("#5b21b6"))
    } else if str_eq(s, "violet-900") {
        Some(String::from_str("#4c1d95"))
    } else {
        None
    }
}

/// The `purple` rows of the palette.
pub open spec fn spec_purple_color(s: Seq<char>) -> Option<Seq<char>> {
    if s == "purple-50"@ {
        Some("#faf5ff"@)
    } else if s == "purple-100"@ {
        Some("#f3e8ff"@)
    } else if s == "purple-200"@ {
        Some("#e9d5ff"@)
    } else if s == "purple-300"@ {
        Some("#d8b4fe"@)
    } else if s == "purple-400"@ {
        Some("#c084fc"@)
    } else if s == "purple-500"@ {
        Some("#a855f7"@)
    } else if s == "purple-600"@ {
        Some("#9333ea"@)
    } else if s == "purple-700"@ {
        Some("#7e22ce"@)
    } else if s == "purple-800"@ {
        Some("#6b21a8"@)
    } else if s == "purple-900"@ {
        Some("#581c87"@)
    } else {
        None
    }
}

fn purple_color(s: &str) -> (r: Option<String>)
    ensures
        row_resolved(r, spec_purple_color(s@)),
{
    if str_eq(s, "purple-50") {
        Some(String::from_str("#faf5ff"))
    } else if str_eq(s, "purple-100") {
        Some(String::from_str("#f3e8ff"))
    } else if str_eq(s, "purple-200") {
        Some(String::from_str("#e9d5ff"))
    } else if str_eq(s, "purple-300") {
        Some(String::from_str("#d8b4fe"))
    } else if str_eq(s, "purple-400") {
        Some(String::from_str("#c084fc"))
    } else if str_eq(s, "purple-500") {
        Some(String::from_str("#a855f7"))
    } else if str_eq(s, "purple-600") {
        Some(String::from_str("#9333ea"))
    } else if str_eq(s, "purple-700") {
        Some(String::from_str("#7e22ce"))
    } else if str_eq(s, "purple-800") {
        Some(String::from_str("#6b21a8"))
    } else if str_eq(s, "purple-900") {
        Some(String::from_str("#581c87"))
    } else {
        None
    }
}

/// The `fuchsia` rows of the palette.
pub open spec fn spec_fuchsia_color(s: Seq<char>) -> Option<Seq<char>> {
    if s == "fuchsia-50"@ {
        Some("#fdf4ff"@)
    } else if s == "fuchsia-100"@ {
        Some("#fae8ff"@)
    } else if s == "fuchsia-200"@ {
        Some("#f5d0fe"@)
    } else if s == "fuchsia-300"@ {
        Some("#f0abfc"@)
    } else if s == "fuchsia-400"@ {
        Some("#e879f9"@)
    } else if s == "fuchsia-500"@ {
        Some("#d946ef"@)
    } else if s == "fuchsia-600"@ {
        Some("#c026d3"@)
    } else if s == "fuchsia-700"@ {
        Some("#a21caf"@)
    } else if s == "fuchsia-800"@ {
        Some("#86198f"@)
    } else if s == "fuchsia-900"@ {
        Some("#701a75"@)
    } else {
        None
    }
}

fn fuchsia_color(s: &str) -> (r: Option<String>)
    ensures
        row_resolved(r, spec_fuchsia_color(s@)),
{
    if str_eq(s, "fuchsia-50") {
        Some(String::from_str("#fdf4ff"))
    } else if str_eq(s, "fuchsia-100") {
        Some(String::from_str("#fae8ff"))
    } else if str_eq(s, "fuchsia-200") {
        Some(String::from_str("#f5d0fe"))
    } else if str_eq(s, "fuchsia-300") {
        Some(String::from_str("#f0abfc"))
    } else if str_eq(s, "fuchsia-400") {
        Some(String::from_str("#e879f9"))
    } else if str_eq(s, "fuchsia-500") {
        Some(String::from_str("#d946ef"))
    } else if str_eq(s, "fuchsia-600") {
        Some(String::from_str("#c026d3"))
    } else if str_eq(s, "fuchsia-700") {
        Some(String::from_str("#a21caf"))
    } else if str_eq(s, "fuchsia-800") {
        Some(String::from_str("#86198f"))
    } else if str_eq(s, "fuchsia-900") {
        Some(String::from_str("#701a75"))
    } else {
        None
    }
}

/// The `pink` rows of the palette.
pub open spec fn spec_pink_color(s: Seq<char>) -> Option<Seq<char>> {
    if s == "pink-50"@ {
        Some("#fdf2f8"@)
    } else if s == "pink-100"@ {
        Some("#fce7f3"@)
    } else if s == "pink-200"@ {
        Some("#fbcfe8"@)
    } else if s == "pink-300"@ {
        Some("#f9a8d4"@)
    } else if s == "pink-400"@ {
        Some("#f472b6"@)
    } else if s == "pink-500"@ {
        Some("#ec4899"@)
    } else if s == "pink-600"@ {
        Some("#db2777"@)
    } else if s == "pink-700"@ {
        Some("#be185d"@)
    } else if s == "pink-800"@ {
        Some("#9d174d"@)
    } else if s == "pink-900"@ {
        Some("#831843"@)
    } else {
        None
    }
}

fn pink_color(s: &str) -> (r: Option<String>)
    ensures
        row_resolved(r, spec_pink_color(s@)),
{
    if str_eq(s, "pink-50") {
        Some(String::from_str("#fdf2f8"))
    } else if str_eq(s, "pink-100") {
        Some(String::from_str("#fce7f3"))
    } else if str_eq(s, "pink-200") {
        Some(String::from_str("#fbcfe8"))
    } else if str_eq(s, "pink-300") {
        Some(String::from_str("#f9a8d4"))
    } else if str_eq(s, "pink-400") {
        Some(String::from_str("#f472b6"))
    } else if str_eq(s, "pink-500") {
        Some(String::from_str("#ec4899"))
    } else if str_eq(s, "pink-600") {
        Some(String::from_str("#db2777"))
    } else if str_eq(s, "pink-700") {
        Some(String::from_str("#be185d"))
    } else if str_eq(s, "pink-800") {
        Some(String::from_str("#9d174d"))
    } else if str_eq(s, "pink-900") {
        Some(String::from_str("#831843"))
    } else {
        None
    }
}

/// The `rose` rows of the palette.
pub open spec fn spec_rose_color(s: Seq<char>) -> Option<Seq<char>> {
    if s == "rose-50"@ {
        Some("#fff1f2"@)
    } else if s == "rose-100"@ {
        Some("#ffe4e6"@)
    } else if s == "rose-200"@ {
        Some("#fecdd3"@)
    } else if s == "rose-300"@ {
        Some("#fda4af"@)
    } else if s == "rose-400"@ {
        Some("#fb7185"@)
    } else if s == "rose-500"@ {
        Some("#f43f5e"@)
    } else if s == "rose-600"@ {
        Some("#e11d48"@)
    } else if s == "rose-700"@ {
        Some("#be123c"@)
    } else if s == "rose-800"@ {
        Some("#9f1239"@)
    } else if s == "rose-900"@ {
        Some("#881337"@)
    } else {
        None
    }
}

fn rose_color(s: &str) -> (r: Option<String>)
    ensures
        row_resolved(r, spec_rose_color(s@)),
{
    if str_eq(s, "rose-50") {
        Some(String::from_str("#fff1f2"))
    } else if str_eq(s, "rose-100") {
        Some(String::from_str("#ffe4e6"))
    } else if str_eq(s, "rose-200") {
        Some(String::from_str("#fecdd3"))
    } else if str_eq(s, "rose-300") {
        Some(String::from_str("#fda4af"))
    } else if str_eq(s, "rose-400") {
        Some(String::from_str("#fb7185"))
    } else if str_eq(s, "rose-500") {
        Some(String::from_str("#f43f5e"))
    } else if str_eq(s, "rose-600") {
        Some(String::from_str("#e11d48"))
    } else if str_eq(s, "rose-700") {
        Some(String::from_str("#be123c"))
    } else if str_eq(s, "rose-800") {
        Some(String::from_str("#9f1239"))
    } else if str_eq(s, "rose-900") {
        Some(String::from_str("#881337"))
    } else {
        None
    }
}

/// The whole palette, for identifier values.
pub open spec fn spec_color_iden(s: Seq<char>) -> Option<Seq<char>> {
    if spec_named_color(s) is Some {
        spec_named_color(s)
    } else if spec_slate_color(s) is Some {
        spec_slate_color(s)
    } else if spec_gray_color(s) is Some {
        spec_gray_color(s)
    } else if spec_zinc_color(s) is Some {
        spec_zinc_color(s)
    } else if spec_neutral_color(s) is Some {
        spec_neutral_color(s)
    } else if spec_stone_color(s) is Some {
        spec_stone_color(s)
    } else if spec_red_color(s) is Some {
        spec_red_color(s)
    } else if spec_orange_color(s) is Some {
        spec_orange_color(s)
    } else if spec_amber_color(s) is Some {
        spec_amber_color(s)
    } else if spec_yellow_color(s) is Some {
        spec_yellow_color(s)
    } else if spec_lime_color(s) is Some {
        spec_lime_color(s)
    } else if spec_green_color(s) is Some {
        spec_green_color(s)
    } else if spec_emerald_color(s) is Some {
        spec_emerald_color(s)
    } else if spec_teal_color(s) is Some {
        spec_teal_color(s)
    } else if spec_cyan_color(s) is Some {
        spec_cyan_color(s)
    } else if spec_sky_color(s) is Some {
        spec_sky_color(s)
    } else if spec_blue_color(s) is Some {
        spec_blue_color(s)
    } else if spec_indigo_color(s) is Some {
        spec_indigo_color(s)
    } else if spec_violet_color(s) is Some {
        spec_violet_color(s)
    } else if spec_purple_color(s) is Some {
        spec_purple_color(s)
    } else if spec_fuchsia_color(s) is Some {
        spec_fuchsia_color(s)
    } else if spec_pink_color(s) is Some {
        spec_pink_color(s)
    } else if spec_rose_color(s) is Some {
        spec_rose_color(s)
    } else {
        None
    }
}

/// The whole palette.
pub open spec fn spec_color_value(v: ValueV) -> Option<Seq<char>> {
    match v {
        ValueV::Raw(raw) => Some(raw),
        ValueV::Iden(s) => spec_color_iden(s),
    }
}

fn color_iden(s: &str) -> (r: Result<String, CompileError>)
    ensures
        resolved_as(r, spec_color_iden(s@), CompileError::UnknownValue),
{
    if let Some(v) = named_color(s) {
        return Ok(v);
    }
    if let Some(v) = slate_color(s) {
        return Ok(v);
    }
    if let Some(v) = gray_color(s) {
        return Ok(v);
    }
    if let Some(v) = zinc_color(s) {
        return Ok(v);
    }
    if let Some(v) = neutral_color(s) {
        return Ok(v);
    }
    if let Some(v) = stone_color(s) {
        return Ok(v);
    }
    if let Some(v) = red_color(s) {
        return Ok(v);
    }
    if let Some(v) = orange_color(s) {
        return Ok(v);
    }
    if let Some(v) = amber_color(s) {
        return Ok(v);
    }
    if let Some(v) = yellow_color(s) {
        return Ok(v);
    }
    if let Some(v) = lime_color(s) {
        return Ok(v);
    }
    if let Some(v) = green_color(s) {
        return Ok(v);
    }
    if let Some(v) = emerald_color(s) {
        return Ok(v);
    }
    if let Some(v) = teal_color(s) {
        return Ok(v);
    }
    if let Some(v) = cyan_color(s) {
        return Ok(v);
    }
    if let Some(v) = sky_color(s) {
        return Ok(v);
    }
    if let Some(v) = blue_color(s) {
        return Ok(v);
    }
    if let Some(v) = indigo_color(s) {
        return Ok(v);
    }
    if let Some(v) = violet_color(s) {
        return Ok(v);
    }
    if let Some(v) = purple_color(s) {
        return Ok(v);
    }
    if let Some(v) = fuchsia_color(s) {
        return Ok(v);
    }
    if let Some(v) = pink_color(s) {
        return Ok(v);
    }
    if let Some(v) = rose_color(s) {
        return Ok(v);
    }
    Err(CompileError::UnknownValue)
}

/// The color of a value. A raw value passes through unresolved.
pub fn get_color_value(value: &Value) -> (r: Result<String, CompileError>)
    ensures
        resolved_as(r, spec_color_value(value@), CompileError::UnknownValue),
{
    match value {
        Value::Raw(raw) => Ok(raw.clone()),
        Value::Iden(iden) => color_iden(iden.as_str()),
    }
}

} // verus!
