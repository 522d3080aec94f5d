//! Window locator: finds the application's top-level window in the registry
//! by trying match criteria in a fixed priority order — exact title and class,
//! the alternate-title list with the expected class, class only, alternate
//! class names, and finally full enumeration with case-insensitive heuristic
//! text matching. The first rung that yields a handle wins and the remaining
//! rungs are skipped.

use vstd::prelude::*;

use crate::desktop::Desktop;
use crate::desktop::WinModel;
use crate::text::contains_ci;
use crate::text::contains_ci_spec;
use crate::text::str_eq;

verus! {

/// The window title the application creates its main window with.
pub open spec fn expected_title() -> Seq<char> {
    "MCP Link"@
}

/// The class name the UI toolkit registers for that window.
pub open spec fn expected_class() -> Seq<char> {
    "Tauri Window"@
}

/// How many alternate titles the locator tries.
pub open spec fn alt_title_count() -> int {
    12
}

/// The alternate titles, in the order they are tried. The empty string covers
/// windows whose title the OS reports as empty.
pub open spec fn alt_title_at(i: int) -> Seq<char> {
    if i == 0 {
        "MCP Link"@
    } else if i == 1 {
        "MCPLink"@
    } else if i == 2 {
        "MCP-Link"@
    } else if i == 3 {
        "MCPLINK"@
    } else if i == 4 {
        "tauri app"@
    } else if i == 5 {
        "Tauri App"@
    } else if i == 6 {
        "Tauri"@
    } else if i == 7 {
        "TAURI"@
    } else if i == 8 {
        "Tauri Application"@
    } else if i == 9 {
        "MCP"@
    } else if i == 10 {
        "Link"@
    } else {
        ""@
    }
}

/// How many alternate class names the locator tries.
pub open spec fn alt_class_count() -> int {
    9
}

/// Plausible class names across UI-toolkit versions, in the order they are
/// tried.
pub open spec fn alt_class_at(i: int) -> Seq<char> {
    if i == 0 {
        "Tauri Window"@
    } else if i == 1 {
        "TAURI WINDOW"@
    } else if i == 2 {
        "tauri window"@
    } else if i == 3 {
        "Tauri"@
    } else if i == 4 {
        "tauri"@
    } else if i == 5 {
        "Wry"@
    } else if i == 6 {
        "wry"@
    } else if i == 7 {
        "MCP"@
    } else {
        "app"@
    }
}

/// The executable alternate-title table, equal to `alt_title_at`.
pub fn alt_title(i: usize) -> (r: &'static str)
    requires
        i < alt_title_count(),
    ensures
        r@ == alt_title_at(i as int),
{
    if i == 0 {
        "MCP Link"
    } else if i == 1 {
        "MCPLink"
    } else if i == 2 {
        "MCP-Link"
    } else if i == 3 {
        "MCPLINK"
    } else if i == 4 {
        "tauri app"
    } else if i == 5 {
        "Tauri App"
    } else if i == 6 {
        "Tauri"
    } else if i == 7 {
        "TAURI"
    } else if i == 8 {
        "Tauri Application"
    } else if i == 9 {
        "MCP"
    } else if i == 10 {
        "Link"
    } else {
        ""
    }
}

/// The executable alternate-class table, equal to `alt_class_at`.
pub fn alt_class(i: usize) -> (r: &'static str)
    requires
        i < alt_class_count(),
    ensures
        r@ == alt_class_at(i as int),
{
    if i == 0 {
        "Tauri Window"
    } else if i == 1 {
        "TAURI WINDOW"
    } else if i == 2 {
        "tauri window"
    } else if i == 3 {
        "Tauri"
    } else if i == 4 {
        "tauri"
    } else if i == 5 {
        "Wry"
    } else if i == 6 {
        "wry"
    } else if i == 7 {
        "MCP"
    } else {
        "app"
    }
}

/// A window matches a lookup by optional exact title and optional exact class;
/// an absent component is a wildcard.
pub open spec fn name_matches(e: WinModel, t: Option<Seq<char>>, c: Option<Seq<char>>) -> bool {
    &&& match t {
        Some(tv) => e.title == tv,
        None => true,
    }
    &&& match c {
        Some(cv) => e.class == cv,
        None => true,
    }
}

/// The handle of the first window matching the lookup, or 0 when none does —
/// the shape of the OS's find-window call.
pub open spec fn find_named(ws: Seq<WinModel>, t: Option<Seq<char>>, c: Option<Seq<char>>) -> u64
    decreases ws.len(),
{
    if ws.len() == 0 {
        0u64
    } else if name_matches(ws[0], t, c) {
        ws[0].handle
    } else {
        find_named(ws.drop_first(), t, c)
    }
}

pub proof fn lemma_find_named_found(
    ws: Seq<WinModel>,
    t: Option<Seq<char>>,
    c: Option<Seq<char>>,
    i: int,
)
    requires
        0 <= i < ws.len(),
        name_matches(ws[i], t, c),
        forall|j: int| 0 <= j < i ==> !name_matches(ws[j], t, c),
    ensures
        find_named(ws, t, c) == ws[i].handle,
    decreases i,
{
    if i > 0 {
        assert(ws.drop_first()[i - 1] == ws[i]);
        assert(forall|j: int| 0 <= j < i - 1 ==> !name_matches(ws.drop_first()[j], t, c));
        lemma_find_named_found(ws.drop_first(), t, c, i - 1);
    }
}

pub proof fn lemma_find_named_none(ws: Seq<WinModel>, t: Option<Seq<char>>, c: Option<Seq<char>>)
    requires
        forall|j: int| 0 <= j < ws.len() ==> !name_matches(ws[j], t, c),
    ensures
        find_named(ws, t, c) == 0,
    decreases ws.len(),
{
    if ws.len() > 0 {
        assert(forall|j: int| 0 <= j < ws.len() - 1 ==> !name_matches(ws.drop_first()[j], t, c));
        lemma_find_named_none(ws.drop_first(), t, c);
    }
}

/// When every registered window has a nonzero handle, a lookup with a match
/// yields a handle.
pub proof fn lemma_find_named_nonzero(
    ws: Seq<WinModel>,
    t: Option<Seq<char>>,
    c: Option<Seq<char>>,
    k: int,
)
    requires
        0 <= k < ws.len(),
        name_matches(ws[k], t, c),
        forall|j: int| 0 <= j < ws.len() ==> ws[j].handle != 0,
    ensures
        find_named(ws, t, c) != 0,
    decreases ws.len(),
{
    if !name_matches(ws[0], t, c) {
        assert(ws.drop_first()[k - 1] == ws[k]);
        assert(forall|j: int| 0 <= j < ws.len() - 1 ==> ws.drop_first()[j].handle != 0);
        lemma_find_named_nonzero(ws.drop_first(), t, c, k - 1);
    }
}

/// A nonzero lookup result is the handle of some window matching the lookup.
pub proof fn lemma_find_named_is_match(
    ws: Seq<WinModel>,
    t: Option<Seq<char>>,
    c: Option<Seq<char>>,
)
    requires
        find_named(ws, t, c) != 0,
    ensures
        exists|k: int|
            0 <= k < ws.len() && ws[k].handle == find_named(ws, t, c) && name_matches(ws[k], t, c),
    decreases ws.len(),
{
    if ws.len() > 0 && !name_matches(ws[0], t, c) {
        lemma_find_named_is_match(ws.drop_first(), t, c);
        let k0 = choose|k: int|
            0 <= k < ws.drop_first().len() && ws.drop_first()[k].handle == find_named(
                ws.drop_first(),
                t,
                c,
            ) && name_matches(ws.drop_first()[k], t, c);
        assert(ws[k0 + 1] == ws.drop_first()[k0]);
    }
}

/// The view of an optional string argument.
pub open spec fn opt_view(o: Option<&str>) -> Option<Seq<char>> {
    match o {
        Some(s) => Some(s@),
        None => None,
    }
}

/// Looks the registry up by optional exact title and optional exact class and
/// returns the first matching window's handle, 0 when none matches.
pub fn find_window(d: &Desktop, title: Option<&str>, class: Option<&str>) -> (r: u64)
    ensures
        r == find_named(d@.windows, opt_view(title), opt_view(class)),
{
    let n = d.windows.len();
    let mut i: usize = 0;
    while i < n
        invariant
            n == d.windows@.len(),
            i <= n,
            forall|j: int|
                0 <= j < i ==> !name_matches(d@.windows[j], opt_view(title), opt_view(class)),
        decreases n - i,
    {
        let title_ok = match title {
            Some(t) => str_eq(d.windows[i].title.as_str(), t),
            None => true,
        };
        let class_ok = match class {
            Some(c) => str_eq(d.windows[i].class.as_str(), c),
            None => true,
        };
        if title_ok && class_ok {
            proof {
                lemma_find_named_found(d@.windows, opt_view(title), opt_view(class), i as int);
            }
            return d.windows[i].handle;
        }
        i = i + 1;
    }
    proof {
        lemma_find_named_none(d@.windows, opt_view(title), opt_view(class));
    }
    0
}

/// Result of trying the alternate-title list from entry `i` on: the first
/// title in the list for which the registry lookup yields a handle.
pub open spec fn find_alt_title_from(ws: Seq<WinModel>, i: int) -> u64
    decreases alt_title_count() - i,
{
    if i < 0 || i >= alt_title_count() {
        0u64
    } else {
        let h = find_named(ws, Some(alt_title_at(i)), Some(expected_class()));
        if h != 0 {
            h
        } else {
            find_alt_title_from(ws, i + 1)
        }
    }
}

/// Result of trying the alternate-class list from entry `i` on.
pub open spec fn find_alt_class_from(ws: Seq<WinModel>, i: int) -> u64
    decreases alt_class_count() - i,
{
    if i < 0 || i >= alt_class_count() {
        0u64
    } else {
        let h = find_named(ws, None, Some(alt_class_at(i)));
        if h != 0 {
            h
        } else {
            find_alt_class_from(ws, i + 1)
        }
    }
}

/// A window acceptable to the full-enumeration rung: visible, with a nonempty
/// title, and either carrying the exact expected identity or containing one of
/// the domain keywords in its title or class, case-insensitively.
pub open spec fn matches_enumeration(e: WinModel) -> bool {
    &&& e.visible
    &&& e.title.len() > 0
    &&& {
        ||| (e.title == expected_title() && e.class == expected_class())
        ||| contains_ci_spec(e.title, "mcp"@)
        ||| contains_ci_spec(e.title, "link"@)
        ||| contains_ci_spec(e.class, "tauri"@)
        ||| contains_ci_spec(e.class, "window"@)
    }
}

/// The first window the enumeration rung accepts, or 0 when none.
pub open spec fn find_enum(ws: Seq<WinModel>) -> u64
    decreases ws.len(),
{
    if ws.len() == 0 {
        0u64
    } else if matches_enumeration(ws[0]) {
        ws[0].handle
    } else {
        find_enum(ws.drop_first())
    }
}

pub proof fn lemma_find_enum_found(ws: Seq<WinModel>, i: int)
    requires
        0 <= i < ws.len(),
        matches_enumeration(ws[i]),
        forall|j: int| 0 <= j < i ==> !matches_enumeration(ws[j]),
    ensures
        find_enum(ws) == ws[i].handle,
    decreases i,
{
    if i > 0 {
        assert(ws.drop_first()[i - 1] == ws[i]);
        assert(forall|j: int| 0 <= j < i - 1 ==> !matches_enumeration(ws.drop_first()[j]));
        lemma_find_enum_found(ws.drop_first(), i - 1);
    }
}

pub proof fn lemma_find_enum_none(ws: Seq<WinModel>)
    requires
        forall|j: int| 0 <= j < ws.len() ==> !matches_enumeration(ws[j]),
    ensures
        find_enum(ws) == 0,
    decreases ws.len(),
{
    if ws.len() > 0 {
        assert(forall|j: int| 0 <= j < ws.len() - 1 ==> !matches_enumeration(ws.drop_first()[j]));
        lemma_find_enum_none(ws.drop_first());
    }
}

/// Walks every top-level window and accepts the first one matching the
/// enumeration heuristic.
pub fn enumerate_match(d: &Desktop) -> (r: u64)
    ensures
        r == find_enum(d@.windows),
{
    let n = d.windows.len();
    let mut i: usize = 0;
    while i < n
        invariant
            n == d.windows@.len(),
            i <= n,
            forall|j: int| 0 <= j < i ==> !matches_enumeration(d@.windows[j]),
        decreases n - i,
    {
        let e = &d.windows[i];
        let accept = e.visible && !e.title.as_str().is_empty() && ((str_eq(
            e.title.as_str(),
            "MCP Link",
        ) && str_eq(e.class.as_str(), "Tauri Window")) || contains_ci(e.title.as_str(), "mcp")
            || contains_ci(e.title.as_str(), "link") || contains_ci(e.class.as_str(), "tauri")
            || contains_ci(e.class.as_str(), "window"));
        if accept {
            proof {
                lemma_find_enum_found(d@.windows, i as int);
            }
            return e.handle;
        }
        i = i + 1;
    }
    proof {
        lemma_find_enum_none(d@.windows);
    }
    0
}

/// Which rung of the priority ladder produced the handle.
#[derive(Clone, Copy, Debug, PartialEq, Eq, Structural)]
pub enum MatchRung {
    /// Exact expected title and expected class.
    ExactPair,
    /// One of the alternate titles, with the expected class.
    AltTitle,
    /// The expected class, any title.
    ClassOnly,
    /// One of the alternate class names, any title.
    AltClass,
    /// Full enumeration with heuristic text matching.
    Enumeration,
}

/// What the locator returns on a given registry: the first rung with a match,
/// together with the handle that rung produced; nothing when every rung fails.
pub open spec fn locate_model(ws: Seq<WinModel>) -> Option<(u64, MatchRung)> {
    let h1 = find_named(ws, Some(expected_title()), Some(expected_class()));
    if h1 != 0 {
        Some((h1, MatchRung::ExactPair))
    } else {
        let h2 = find_alt_title_from(ws, 0);
        if h2 != 0 {
            Some((h2, MatchRung::AltTitle))
        } else {
            let h3 = find_named(ws, None, Some(expected_class()));
            if h3 != 0 {
                Some((h3, MatchRung::ClassOnly))
            } else {
                let h4 = find_alt_class_from(ws, 0);
                if h4 != 0 {
                    Some((h4, MatchRung::AltClass))
                } else {
                    let h5 = find_enum(ws);
                    if h5 != 0 {
                        Some((h5, MatchRung::Enumeration))
                    } else {
                        None
                    }
                }
            }
        }
    }
}

/// A window the enumeration heuristic accepts makes the enumeration rung yield
/// a handle, provided every registered window has a real one.
pub proof fn lemma_find_enum_nonzero(ws: Seq<WinModel>, k: int)
    requires
        0 <= k < ws.len(),
        matches_enumeration(ws[k]),
        forall|j: int| 0 <= j < ws.len() ==> (#[trigger] ws[j]).handle != 0,
    ensures
        find_enum(ws) != 0,
    decreases ws.len(),
{
    if !matches_enumeration(ws[0]) {
        assert(ws.drop_first()[k - 1] == ws[k]);
        assert(forall|j: int| 0 <= j < ws.len() - 1 ==> (#[trigger] ws.drop_first()[j]).handle != 0);
        lemma_find_enum_nonzero(ws.drop_first(), k - 1);
    }
}

/// When the whole alternate-class list comes up empty, so does each single
/// lookup in it.
pub proof fn lemma_alt_class_from_none(ws: Seq<WinModel>, i0: int, i: int)
    requires
        0 <= i0 <= i < alt_class_count(),
        find_alt_class_from(ws, i0) == 0,
    ensures
        find_named(ws, None, Some(alt_class_at(i))) == 0,
    decreases i - i0,
{
    if i0 < i {
        lemma_alt_class_from_none(ws, i0 + 1, i);
    }
}

/// The failure half of the locator's contract: on a registry of real handles,
/// "not found" means that no window satisfies any criterion of the ladder —
/// its class is neither the expected one nor an alternate, and the enumeration
/// heuristic rejects it too.
pub proof fn lemma_locate_failure_is_complete(ws: Seq<WinModel>, k: int)
    requires
        locate_model(ws) is None,
        0 <= k < ws.len(),
        forall|j: int| 0 <= j < ws.len() ==> (#[trigger] ws[j]).handle != 0,
    ensures
        ws[k].class != expected_class(),
        forall|i: int| 0 <= i < alt_class_count() ==> ws[k].class != alt_class_at(i),
        !matches_enumeration(ws[k]),
{
    if ws[k].class == expected_class() {
        assert(name_matches(ws[k], None, Some(expected_class())));
        lemma_find_named_nonzero(ws, None, Some(expected_class()), k);
        assert(false);
    }
    assert forall|i: int| 0 <= i < alt_class_count() implies ws[k].class != alt_class_at(i) by {
        if ws[k].class == alt_class_at(i) {
            lemma_alt_class_from_none(ws, 0, i);
            assert(name_matches(ws[k], None, Some(alt_class_at(i))));
            lemma_find_named_nonzero(ws, None, Some(alt_class_at(i)), k);
        }
    }
    if matches_enumeration(ws[k]) {
        lemma_find_enum_nonzero(ws, k);
        assert(false);
    }
}

/// A window carrying one of the alternate titles (from entry `i0` on) with the
/// expected class makes the alternate-title lookup succeed, provided every
/// registered window has a real handle.
pub proof fn lemma_alt_title_hit(ws: Seq<WinModel>, i0: int, i: int, k: int)
    requires
        0 <= i0 <= i < alt_title_count(),
        0 <= k < ws.len(),
        ws[k].title == alt_title_at(i),
        ws[k].class == expected_class(),
        forall|j: int| 0 <= j < ws.len() ==> (#[trigger] ws[j]).handle != 0,
    ensures
        find_alt_title_from(ws, i0) != 0,
    decreases i - i0,
{
    let h = find_named(ws, Some(alt_title_at(i0)), Some(expected_class()));
    if i0 == i {
        lemma_find_named_nonzero(ws, Some(alt_title_at(i)), Some(expected_class()), k);
    } else if h == 0 {
        lemma_alt_title_hit(ws, i0 + 1, i, k);
    }
}

/// A nonzero alternate-title lookup result is the handle of a window carrying
/// one of the alternate titles together with the expected class.
pub proof fn lemma_alt_title_result_is_match(ws: Seq<WinModel>, i0: int)
    requires
        0 <= i0,
        find_alt_title_from(ws, i0) != 0,
    ensures
        exists|k2: int|
            0 <= k2 < ws.len() && (#[trigger] ws[k2]).handle == find_alt_title_from(ws, i0)
                && ws[k2].class == expected_class() && (exists|i2: int|
                i0 <= i2 < alt_title_count() && ws[k2].title == alt_title_at(i2)),
    decreases alt_title_count() - i0,
{
    let h = find_named(ws, Some(alt_title_at(i0)), Some(expected_class()));
    if h != 0 {
        lemma_find_named_is_match(ws, Some(alt_title_at(i0)), Some(expected_class()));
        let k2 = choose|k2: int|
            0 <= k2 < ws.len() && ws[k2].handle == h && name_matches(
                ws[k2],
                Some(alt_title_at(i0)),
                Some(expected_class()),
            );
        assert(ws[k2].title == alt_title_at(i0));
        assert(0 <= k2 < ws.len() && ws[k2].handle == find_alt_title_from(ws, i0) && ws[k2].class
            == expected_class() && (exists|i2: int|
            i0 <= i2 < alt_title_count() && ws[k2].title == alt_title_at(i2)));
    } else {
        lemma_alt_title_result_is_match(ws, i0 + 1);
        let k2 = choose|k2: int|
            0 <= k2 < ws.len() && (#[trigger] ws[k2]).handle == find_alt_title_from(ws, i0 + 1)
                && ws[k2].class == expected_class() && (exists|i2: int|
                i0 + 1 <= i2 < alt_title_count() && ws[k2].title == alt_title_at(i2));
        assert(0 <= k2 < ws.len() && ws[k2].handle == find_alt_title_from(ws, i0) && ws[k2].class
            == expected_class() && (exists|i2: int|
            i0 <= i2 < alt_title_count() && ws[k2].title == alt_title_at(i2)));
    }
}

/// A nonzero enumeration result is the handle of a window the heuristic
/// accepts.
pub proof fn lemma_find_enum_is_match(ws: Seq<WinModel>)
    requires
        find_enum(ws) != 0,
    ensures
        exists|k: int|
            0 <= k < ws.len() && (#[trigger] ws[k]).handle == find_enum(ws) && matches_enumeration(
                ws[k],
            ),
    decreases ws.len(),
{
    if ws.len() > 0 && !matches_enumeration(ws[0]) {
        lemma_find_enum_is_match(ws.drop_first());
        let k0 = choose|k: int|
            0 <= k < ws.drop_first().len() && (#[trigger] ws.drop_first()[k]).handle == find_enum(
                ws.drop_first(),
            ) && matches_enumeration(ws.drop_first()[k]);
        assert(ws[k0 + 1] == ws.drop_first()[k0]);
    }
}

/// A nonzero alternate-class lookup result is the handle of some registered
/// window.
pub proof fn lemma_alt_class_result_registered(ws: Seq<WinModel>, i0: int)
    requires
        0 <= i0,
        find_alt_class_from(ws, i0) != 0,
    ensures
        exists|k: int|
            0 <= k < ws.len() && (#[trigger] ws[k]).handle == find_alt_class_from(ws, i0),
    decreases alt_class_count() - i0,
{
    let h = find_named(ws, None, Some(alt_class_at(i0)));
    if h != 0 {
        lemma_find_named_is_match(ws, None, Some(alt_class_at(i0)));
    } else {
        lemma_alt_class_result_registered(ws, i0 + 1);
    }
}

/// A nonzero alternate-title lookup result is the handle of some registered
/// window.
pub proof fn lemma_alt_title_result_registered(ws: Seq<WinModel>, i0: int)
    requires
        0 <= i0,
        find_alt_title_from(ws, i0) != 0,
    ensures
        exists|k: int|
            0 <= k < ws.len() && (#[trigger] ws[k]).handle == find_alt_title_from(ws, i0),
    decreases alt_title_count() - i0,
{
    let h = find_named(ws, Some(alt_title_at(i0)), Some(expected_class()));
    if h != 0 {
        lemma_find_named_is_match(ws, Some(alt_title_at(i0)), Some(expected_class()));
    } else {
        lemma_alt_title_result_registered(ws, i0 + 1);
    }
}

/// Whatever rung the locator succeeds on, the handle it hands back names a
/// registered window.
pub proof fn lemma_locate_result_registered(ws: Seq<WinModel>)
    requires
        locate_model(ws) is Some,
    ensures
        crate::desktop::has_handle(ws, locate_model(ws)->Some_0.0),
{
    let h = locate_model(ws)->Some_0.0;
    let h1 = find_named(ws, Some(expected_title()), Some(expected_class()));
    let h2 = find_alt_title_from(ws, 0);
    let h3 = find_named(ws, None, Some(expected_class()));
    let h4 = find_alt_class_from(ws, 0);
    if h1 != 0 {
        lemma_find_named_is_match(ws, Some(expected_title()), Some(expected_class()));
    } else if h2 != 0 {
        lemma_alt_title_result_registered(ws, 0);
    } else if h3 != 0 {
        lemma_find_named_is_match(ws, None, Some(expected_class()));
    } else if h4 != 0 {
        lemma_alt_class_result_registered(ws, 0);
    } else {
        lemma_find_enum_is_match(ws);
    }
    let k = choose|k: int| 0 <= k < ws.len() && (#[trigger] ws[k]).handle == h;
    crate::desktop::lemma_has_handle_witness(ws, k);
}

/// Ladder priority: when no window matches the exact expected pair but some
/// window carries an alternate title with the expected class, the locator
/// returns a handle — never "not found" — and it is the alternate-title rung
/// that produced it, with a handle that really carries an alternate title and
/// the expected class; a lower-priority rung that happens to match too never
/// decides.
pub proof fn lemma_priority_alt_title(ws: Seq<WinModel>, i: int, k: int)
    requires
        0 <= k < ws.len(),
        0 <= i < alt_title_count(),
        ws[k].title == alt_title_at(i),
        ws[k].class == expected_class(),
        forall|j: int|
            0 <= j < ws.len() ==> !((#[trigger] ws[j]).title == expected_title() && ws[j].class
                == expected_class()),
        forall|j: int| 0 <= j < ws.len() ==> (#[trigger] ws[j]).handle != 0,
    ensures
        locate_model(ws) is Some,
        locate_model(ws)->Some_0.1 == MatchRung::AltTitle,
        exists|k2: int|
            0 <= k2 < ws.len() && (#[trigger] ws[k2]).handle == locate_model(ws)->Some_0.0
                && ws[k2].class == expected_class() && (exists|i2: int|
                0 <= i2 < alt_title_count() && ws[k2].title == alt_title_at(i2)),
{
    assert forall|j: int|
        0 <= j < ws.len() implies !name_matches(
        #[trigger] ws[j],
        Some(expected_title()),
        Some(expected_class()),
    ) by {}
    lemma_find_named_none(ws, Some(expected_title()), Some(expected_class()));
    lemma_alt_title_hit(ws, 0, i, k);
    lemma_alt_title_result_is_match(ws, 0);
}

/// Searches the registry for the application window, trying each criterion in
/// priority order, and reports the handle found and the rung that found it.
/// Every call re-derives the handle from scratch; handles are never cached.
pub fn locate(d: &Desktop) -> (r: Option<(u64, MatchRung)>)
    ensures
        r == locate_model(d@.windows),
{
    let h1 = find_window(d, Some("MCP Link"), Some("Tauri Window"));
    if h1 != 0 {
        return Some((h1, MatchRung::ExactPair));
    }
    let mut i: usize = 0;
    while i < 12
        invariant
            i <= 12,
            find_named(d@.windows, Some(expected_title()), Some(expected_class())) == 0,
            find_alt_title_from(d@.windows, 0) == find_alt_title_from(d@.windows, i as int),
        decreases 12 - i,
    {
        let h = find_window(d, Some(alt_title(i)), Some("Tauri Window"));
        if h != 0 {
            proof {
                assert(find_alt_title_from(d@.windows, i as int) == h);
            }
            return Some((h, MatchRung::AltTitle));
        }
        i = i + 1;
    }
    let h3 = find_window(d, None, Some("Tauri Window"));
    if h3 != 0 {
        return Some((h3, MatchRung::ClassOnly));
    }
    let mut k: usize = 0;
    while k < 9
        invariant
            k <= 9,
            find_named(d@.windows, Some(expected_title()), Some(expected_class())) == 0,
            find_alt_title_from(d@.windows, 0) == 0,
            find_named(d@.windows, None, Some(expected_class())) == 0,
            find_alt_class_from(d@.windows, 0) == find_alt_class_from(d@.windows, k as int),
        decreases 9 - k,
    {
        let h = find_window(d, None, Some(alt_class(k)));
        if h != 0 {
            proof {
                assert(find_alt_class_from(d@.windows, k as int) == h);
            }
            return Some((h, MatchRung::AltClass));
        }
        k = k + 1;
    }
    let h5 = enumerate_match(d);
    if h5 != 0 {
        return Some((h5, MatchRung::Enumeration));
    }
    None
}

} // verus!
