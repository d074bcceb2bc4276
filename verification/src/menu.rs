//! The menu tree and its conversion to a native menu model.
//!
//! A menu is built once by the client as a tree of entries, submenus and
//! separators. Attaching it to a window converts it to a native model: one
//! logical walk that fixes each item's child identifier, command id, enabled
//! flag and accelerator string. Separators get synthetic identifiers
//! (`sep1`, `sep2`, ...) counted per menu level, since the native model wants
//! a distinct identifier for every entry.

use vstd::prelude::*;
use crate::event::Modifiers;
use crate::keys::{Key, spec_key_to_raw_key, spec_raw_key_to_char, key_to_raw_key, raw_key_to_char};

verus! {

/// Appends one character to a string.
///
/// Relies on `String::push` from std: it appends exactly the given character.
#[verifier::external_body]
fn push_char(s: &mut String, c: char)
    ensures
        final(s)@ == old(s)@.push(c),
{
    s.push(c);
}

/// The label that results from stripping unescaped access-key markers from
/// `s`, `amp` recording whether the previous character was an unconsumed
/// marker: a single `&` marks the next character as the mnemonic and is
/// dropped, while `&&` stands for a literal `&`.
pub open spec fn spec_strip_rec(s: Seq<char>, amp: bool) -> Seq<char>
    decreases s.len(),
{
    if s.len() == 0 {
        Seq::empty()
    } else {
        let c = s[0];
        let rest = s.drop_first();
        if c == '&' {
            if amp {
                seq!['&'] + spec_strip_rec(rest, false)
            } else {
                spec_strip_rec(rest, true)
            }
        } else {
            seq![c] + spec_strip_rec(rest, false)
        }
    }
}

/// A menu label with its access-key markers stripped.
pub open spec fn spec_strip_access_key(s: Seq<char>) -> Seq<char> {
    spec_strip_rec(s, false)
}

/// Strips access-key markers from a label, so a label authored with a
/// mnemonic displays without it: `&` is dropped, `&&` becomes `&`.
pub fn strip_access_key(text: &str) -> (r: String)
    ensures
        r@ == spec_strip_access_key(text@),
{
    let n = text.unicode_len();
    let mut out = String::new();
    let mut amp = false;
    let mut i: usize = 0;
    proof {
        assert(text@.skip(0) =~= text@);
    }
    while i < n
        invariant
            i <= n,
            n == text@.len(),
            spec_strip_access_key(text@) == out@ + spec_strip_rec(text@.skip(i as int), amp),
        decreases n - i,
    {
        let c = text.get_char(i);
        proof {
            assert(text@.skip(i as int)[0] == text@[i as int]);
            assert(text@.skip(i as int).drop_first() =~= text@.skip(i + 1));
        }
        if c == '&' {
            if amp {
                push_char(&mut out, '&');
                amp = false;
            } else {
                amp = true;
            }
        } else {
            push_char(&mut out, c);
            amp = false;
        }
        i = i + 1;
        proof {
            assert(spec_strip_access_key(text@) == out@ + spec_strip_rec(
                text@.skip(i as int),
                amp,
            ));
        }
    }
    proof {
        assert(text@.skip(n as int) =~= Seq::<char>::empty());
        assert(out@ + Seq::<char>::empty() =~= out@);
    }
    out
}

/// The decimal digit character for `d`.
pub open spec fn spec_digit_char(d: nat) -> char {
    if d == 0 {
        '0'
    } else if d == 1 {
        '1'
    } else if d == 2 {
        '2'
    } else if d == 3 {
        '3'
    } else if d == 4 {
        '4'
    } else if d == 5 {
        '5'
    } else if d == 6 {
        '6'
    } else if d == 7 {
        '7'
    } else if d == 8 {
        '8'
    } else {
        '9'
    }
}

/// The decimal rendering of `n`, most significant digit first.
pub open spec fn spec_decimal(n: nat) -> Seq<char>
    decreases n,
{
    if n < 10 {
        seq![spec_digit_char(n)]
    } else {
        spec_decimal(n / 10).push(spec_digit_char(n % 10))
    }
}

fn digit_char(d: u64) -> (c: char)
    requires
        d < 10,
    ensures
        c == spec_digit_char(d as nat),
{
    match d {
        0 => '0',
        1 => '1',
        2 => '2',
        3 => '3',
        4 => '4',
        5 => '5',
        6 => '6',
        7 => '7',
        8 => '8',
        _ => '9',
    }
}

/// Appends the decimal rendering of `n` to `s`.
fn push_decimal(s: &mut String, n: u64)
    ensures
        final(s)@ == old(s)@ + spec_decimal(n as nat),
    decreases n,
{
    if n < 10 {
        push_char(s, digit_char(n));
    } else {
        push_decimal(s, n / 10);
        push_char(s, digit_char(n % 10));
    }
}

/// A keyboard shortcut for a menu entry.
#[derive(Clone, Copy, PartialEq, Eq, Debug)]
pub struct HotKey {
    pub mods: Modifiers,
    pub key: Key,
}

/// One item of a menu: a command entry, a nested submenu, or a separator.
#[derive(PartialEq, Eq, Debug)]
pub enum MenuItem {
    Entry { name: String, id: u32, key: Option<HotKey>, enabled: bool },
    SubMenu(String, Menu),
    Separator,
}

/// An abstract menu tree, built by the client and consumed when attached to
/// a window.
#[derive(PartialEq, Eq, Debug)]
pub struct Menu {
    pub items: Vec<MenuItem>,
}

/// The mathematical shape of a menu item, labels as character sequences.
pub enum MenuItemView {
    Entry { name: Seq<char>, id: u32, key: Option<HotKey>, enabled: bool },
    SubMenu { name: Seq<char>, items: Seq<MenuItemView> },
    Separator,
}

/// The shape of one menu item.
pub open spec fn item_view(item: MenuItem) -> MenuItemView
    decreases item,
{
    match item {
        MenuItem::Entry { name, id, key, enabled } => MenuItemView::Entry {
            name: name@,
            id,
            key,
            enabled,
        },
        MenuItem::SubMenu(name, menu) => MenuItemView::SubMenu {
            name: name@,
            items: items_view(menu.items@),
        },
        MenuItem::Separator => MenuItemView::Separator,
    }
}

/// The shape of a list of menu items.
pub open spec fn items_view(items: Seq<MenuItem>) -> Seq<MenuItemView>
    decreases items,
{
    if items.len() == 0 {
        Seq::empty()
    } else {
        items_view(items.drop_last()).push(item_view(items.last()))
    }
}

/// The shape of a whole menu.
pub open spec fn menu_view(menu: Menu) -> Seq<MenuItemView> {
    items_view(menu.items@)
}

impl Menu {
    /// An empty menu destined for a menu bar.
    pub fn new() -> (m: Menu)
        ensures
            menu_view(m) == Seq::<MenuItemView>::empty(),
    {
        Menu { items: Vec::new() }
    }

    /// An empty menu destined for a context popup.
    pub fn new_for_popup() -> (m: Menu)
        ensures
            menu_view(m) == Seq::<MenuItemView>::empty(),
    {
        Menu { items: Vec::new() }
    }

    /// Appends a submenu under the given label; the label's access-key
    /// marker is stripped.
    pub fn add_dropdown(&mut self, menu: Menu, text: &str, _enabled: bool)
        ensures
            menu_view(*final(self)) == menu_view(*old(self)).push(
                MenuItemView::SubMenu {
                    name: spec_strip_access_key(text@),
                    items: menu_view(menu),
                },
            ),
    {
        let name = strip_access_key(text);
        self.items.push(MenuItem::SubMenu(name, menu));
        proof {
            assert(self.items@.drop_last() =~= old(self).items@);
            assert(items_view(self.items@) == items_view(self.items@.drop_last()).push(
                item_view(self.items@.last()),
            ));
            assert(item_view(self.items@.last()) == (MenuItemView::SubMenu {
                name: spec_strip_access_key(text@),
                items: menu_view(menu),
            }));
        }
    }

    /// Appends a command entry with the given id, optional hotkey and
    /// enabled flag; the label's access-key marker is stripped.
    pub fn add_item(&mut self, id: u32, text: &str, key: Option<&HotKey>, enabled: bool, _selected: bool)
        ensures
            menu_view(*final(self)) == menu_view(*old(self)).push(
                MenuItemView::Entry {
                    name: spec_strip_access_key(text@),
                    id,
                    key: (match key {
                        Some(k) => Some(*k),
                        None => None,
                    }),
                    enabled,
                },
            ),
    {
        let name = strip_access_key(text);
        let owned_key = match key {
            Some(k) => Some(*k),
            None => None,
        };
        self.items.push(MenuItem::Entry { name, id, key: owned_key, enabled });
        proof {
            assert(self.items@.drop_last() =~= old(self).items@);
            assert(items_view(self.items@) == items_view(self.items@.drop_last()).push(
                item_view(self.items@.last()),
            ));
            assert(item_view(self.items@.last()) == (MenuItemView::Entry {
                name: spec_strip_access_key(text@),
                id,
                key: (match key {
                    Some(k) => Some(*k),
                    None => None,
                }),
                enabled,
            }));
        }
    }

    /// Appends a separator.
    pub fn add_separator(&mut self)
        ensures
            menu_view(*final(self)) == menu_view(*old(self)).push(MenuItemView::Separator),
    {
        self.items.push(MenuItem::Separator);
        proof {
            assert(self.items@.drop_last() =~= old(self).items@);
            assert(self.items@.len() > 0);
            assert(self.items@.last() == MenuItem::Separator);
            assert(item_view(MenuItem::Separator) == MenuItemView::Separator);
            assert(items_view(self.items@) == items_view(self.items@.drop_last()).push(
                item_view(self.items@.last()),
            ));
            assert(items_view(self.items@) == items_view(old(self).items@).push(
                MenuItemView::Separator,
            ));
        }
    }
}

/// The native accelerator prefix for a modifier set: one bracketed word per
/// held modifier, in the fixed order alt, control, shift, meta.
pub open spec fn spec_mod_string(m: Modifiers) -> Seq<char> {
    (if m.alt {
        "<Alt>"@
    } else {
        Seq::<char>::empty()
    }) + (if m.ctrl {
        "<Control>"@
    } else {
        Seq::<char>::empty()
    }) + (if m.shift {
        "<Shift>"@
    } else {
        Seq::<char>::empty()
    }) + (if m.meta {
        "<Meta>"@
    } else {
        Seq::<char>::empty()
    })
}

/// Renders a modifier set as the native accelerator prefix.
pub fn modifiers_to_gdk_modifier_string(raw_modifiers: Modifiers) -> (r: String)
    ensures
        r@ == spec_mod_string(raw_modifiers),
{
    let mut result = String::new();
    if raw_modifiers.alt {
        result.append("<Alt>");
    }
    if raw_modifiers.ctrl {
        result.append("<Control>");
    }
    if raw_modifiers.shift {
        result.append("<Shift>");
    }
    if raw_modifiers.meta {
        result.append("<Meta>");
    }
    proof {
        let e = Seq::<char>::empty();
        assert(spec_mod_string(raw_modifiers) =~= result@);
    }
    result
}

/// The character a hotkey's key contributes to its accelerator string: the
/// character itself for a character key, the platform's character for a
/// named key that has one, nothing otherwise.
pub open spec fn spec_accel_char(k: Key) -> Option<char> {
    match k {
        Key::Character(c) => Some(c),
        _ => match spec_key_to_raw_key(k) {
            Some(raw) => spec_raw_key_to_char(raw),
            None => None,
        },
    }
}

/// The native accelerator string for a hotkey: the modifier prefix followed
/// by the key's character. A hotkey whose key has no character has no
/// accelerator string; it registers as an inert shortcut instead of failing
/// the menu build.
pub open spec fn spec_accel_string(hk: HotKey) -> Option<Seq<char>> {
    match spec_accel_char(hk.key) {
        Some(c) => Some(spec_mod_string(hk.mods).push(c)),
        None => None,
    }
}

/// Renders a hotkey as a native accelerator string, or nothing when its key
/// cannot be mapped to a character.
pub fn accelerator_string(hk: &HotKey) -> (r: Option<String>)
    ensures
        (r is Some) == (spec_accel_string(*hk) is Some),
        (r matches Some(s) ==> spec_accel_string(*hk) matches Some(v) && s@ == v),
{
    let c = match &hk.key {
        Key::Character(ch) => Some(*ch),
        k => match key_to_raw_key(k) {
            Some(raw) => raw_key_to_char(raw),
            None => None,
        },
    };
    match c {
        Some(ch) => {
            let mut s = modifiers_to_gdk_modifier_string(hk.mods);
            push_char(&mut s, ch);
            Some(s)
        },
        None => None,
    }
}

/// One item of the native menu model.
#[derive(PartialEq, Eq, Debug)]
pub enum MenuNode {
    /// A command entry: its child identifier (the stripped label), the
    /// command id delivered on activation, whether it is enabled, and its
    /// accelerator string if the hotkey has one.
    Entry { child_id: String, command: u32, enabled: bool, accel: Option<String> },
    /// A nested submenu and its converted children.
    SubMenu { child_id: String, children: Vec<MenuNode> },
    /// A separator under its synthetic identifier.
    Separator { child_id: String },
}

/// The mathematical shape of a native menu-model item.
pub enum MenuNodeView {
    Entry { child_id: Seq<char>, command: u32, enabled: bool, accel: Option<Seq<char>> },
    SubMenu { child_id: Seq<char>, children: Seq<MenuNodeView> },
    Separator { child_id: Seq<char> },
}

/// The shape of one native menu-model item.
pub open spec fn node_view(n: MenuNode) -> MenuNodeView
    decreases n,
{
    match n {
        MenuNode::Entry { child_id, command, enabled, accel } => MenuNodeView::Entry {
            child_id: child_id@,
            command,
            enabled,
            accel: (match accel {
                Some(a) => Some(a@),
                None => None,
            }),
        },
        MenuNode::SubMenu { child_id, children } => MenuNodeView::SubMenu {
            child_id: child_id@,
            children: nodes_view(children@),
        },
        MenuNode::Separator { child_id } => MenuNodeView::Separator { child_id: child_id@ },
    }
}

/// The shape of a list of native menu-model items.
pub open spec fn nodes_view(s: Seq<MenuNode>) -> Seq<MenuNodeView>
    decreases s,
{
    if s.len() == 0 {
        Seq::empty()
    } else {
        nodes_view(s.drop_last()).push(node_view(s.last()))
    }
}

/// The synthetic identifier of the `n`-th separator of a menu level.
pub open spec fn spec_sep_id(n: nat) -> Seq<char> {
    "sep"@ + spec_decimal(n)
}

/// The accelerator string of an optional hotkey.
pub open spec fn spec_accel_of(key: Option<HotKey>) -> Option<Seq<char>> {
    match key {
        Some(hk) => spec_accel_string(hk),
        None => None,
    }
}

/// The one native menu-model node an item converts to, `seps` separators
/// having come before it on its level.
pub open spec fn spec_node_of(item: MenuItemView, seps: nat) -> MenuNodeView
    decreases item, 0int,
{
    match item {
        MenuItemView::Entry { name, id, key, enabled } => MenuNodeView::Entry {
            child_id: name,
            command: id,
            enabled,
            accel: spec_accel_of(key),
        },
        MenuItemView::SubMenu { name, items: sub } => MenuNodeView::SubMenu {
            child_id: name,
            children: spec_model(sub, 0),
        },
        MenuItemView::Separator => MenuNodeView::Separator { child_id: spec_sep_id(seps + 1) },
    }
}

/// The native model of a list of menu items, `seps` separators having come
/// before them on the same level: every conversion of a menu walks the tree
/// in this one order, so the structural model and the widget tree stay
/// consistent.
pub open spec fn spec_model(items: Seq<MenuItemView>, seps: nat) -> Seq<MenuNodeView>
    decreases items, 1int,
{
    if items.len() == 0 {
        Seq::empty()
    } else {
        seq![spec_node_of(items[0], seps)] + spec_model(
            items.drop_first(),
            seps + (if items[0] is Separator {
                1nat
            } else {
                0nat
            }),
        )
    }
}

/// How many separators a list of menu items holds.
pub open spec fn sep_count(items: Seq<MenuItemView>) -> nat
    decreases items,
{
    if items.len() == 0 {
        0nat
    } else {
        (sep_count(items.drop_last()) + (if items.last() is Separator {
            1nat
        } else {
            0nat
        })) as nat
    }
}

/// Appending one item to a level extends its model by that item's nodes,
/// numbered after the separators already on the level.
proof fn lemma_model_snoc(items: Seq<MenuItemView>, x: MenuItemView, seps: nat)
    ensures
        spec_model(items.push(x), seps) == spec_model(items, seps) + seq![
            spec_node_of(x, seps + sep_count(items)),
        ],
        sep_count(items.push(x)) == sep_count(items) + (if x is Separator {
            1nat
        } else {
            0nat
        }),
    decreases items.len(),
{
    assert(items.push(x).drop_last() =~= items);
    assert(items.push(x).last() == x);
    if items.len() == 0 {
        assert(items.push(x).drop_first() =~= Seq::<MenuItemView>::empty());
        assert(items.push(x)[0] == x);
        assert(sep_count(Seq::<MenuItemView>::empty()) == 0);
        let k2: nat = seps + (if x is Separator {
            1nat
        } else {
            0nat
        });
        assert(spec_model(items.push(x).drop_first(), k2) =~= Seq::<MenuNodeView>::empty());
        assert(spec_model(items.push(x), seps) =~= spec_model(items, seps) + seq![
            spec_node_of(x, seps + sep_count(items)),
        ]);
    } else {
        let head = items[0];
        let rest = items.drop_first();
        let seps2: nat = seps + (if head is Separator {
            1nat
        } else {
            0nat
        });
        lemma_model_snoc(rest, x, seps2);
        lemma_sep_count_cons(items);
        lemma_sep_count_cons(items.push(x));
        assert(items.push(x)[0] == head);
        assert(items.push(x).drop_first() =~= rest.push(x));
        assert(seps2 + sep_count(rest) == seps + sep_count(items));
        assert(spec_model(items.push(x), seps) == seq![spec_node_of(head, seps)] + spec_model(
            rest.push(x),
            seps2,
        ));
        assert(spec_model(items, seps) == seq![spec_node_of(head, seps)] + spec_model(rest, seps2));
        assert(spec_model(items.push(x), seps) =~= spec_model(items, seps) + seq![
            spec_node_of(x, seps + sep_count(items)),
        ]);
    }
}

/// Separator counting can be read off the front of the list as well as the
/// back.
proof fn lemma_sep_count_cons(items: Seq<MenuItemView>)
    requires
        items.len() > 0,
    ensures
        sep_count(items) == (if items[0] is Separator {
            1nat
        } else {
            0nat
        }) + sep_count(items.drop_first()),
    decreases items.len(),
{
    if items.len() == 1 {
        assert(items.drop_last() =~= Seq::<MenuItemView>::empty());
        assert(items.drop_first() =~= Seq::<MenuItemView>::empty());
    } else {
        lemma_sep_count_cons(items.drop_last());
        assert(items.drop_last()[0] == items[0]);
        assert(items.drop_last().drop_first() =~= items.drop_first().drop_last());
        assert(items.drop_first().last() == items.last());
    }
}

impl Menu {
    /// Converts the menu tree to its native model: the one logical walk both
    /// native representations (structural model and widget tree) are built
    /// from. Entries keep their stripped label as child identifier and their
    /// command id; separators get `sep1`, `sep2`, ... per level; submenus
    /// convert recursively with a fresh separator count.
    pub fn to_model(&self) -> (r: Vec<MenuNode>)
        ensures
            nodes_view(r@) == spec_model(menu_view(*self), 0),
        decreases *self,
    {
        let mut out: Vec<MenuNode> = Vec::new();
        let mut seps: u64 = 0;
        let mut i: usize = 0;
        proof {
            assert(menu_view(*self).take(0) =~= Seq::<MenuItemView>::empty());
            lemma_items_view_len(self.items@);
        }
        while i < self.items.len()
            invariant
                i <= self.items.len(),
                menu_view(*self).len() == self.items.len(),
                seps == sep_count(menu_view(*self).take(i as int)),
                seps <= i,
                nodes_view(out@) == spec_model(menu_view(*self).take(i as int), 0),
                forall|j: int| 0 <= j < self.items@.len() ==> #[trigger] menu_view(*self)[j]
                    == item_view(self.items@[j]),
            decreases self.items.len() - i,
        {
            let ghost prefix = menu_view(*self).take(i as int);
            let ghost full = menu_view(*self);
            let ghost seps_before = seps as nat;
            let ghost prev_out = out@;
            let node: MenuNode = match &self.items[i] {
                MenuItem::Entry { name, id, key, enabled } => {
                    let accel = match key {
                        Some(hk) => accelerator_string(hk),
                        None => None,
                    };
                    MenuNode::Entry {
                        child_id: name.clone(),
                        command: *id,
                        enabled: *enabled,
                        accel,
                    }
                },
                MenuItem::SubMenu(name, submenu) => {
                    proof {
                        assert(decreases_to!(self.items@ => self.items@[i as int]));
                        assert(decreases_to!(self.items@[i as int] => *submenu));
                    }
                    let children = submenu.to_model();
                    MenuNode::SubMenu { child_id: name.clone(), children }
                },
                MenuItem::Separator => {
                    let mut sid = String::from_str("sep");
                    push_decimal(&mut sid, seps + 1);
                    seps = seps + 1;
                    MenuNode::Separator { child_id: sid }
                },
            };
            out.push(node);
            proof {
                let x = full[i as int];
                assert(x == item_view(self.items@[i as int]));
                lemma_model_snoc(prefix, x, 0);
                assert(prefix.push(x) =~= full.take(i + 1));
                assert(out@.drop_last() =~= prev_out);
                assert(out@.last() == node);
                assert(node_view(node) == spec_node_of(x, seps_before));
                assert(nodes_view(out@) == nodes_view(prev_out).push(node_view(node)));
                assert(nodes_view(out@) =~= spec_model(full.take(i + 1), 0));
                lemma_sep_take_snoc(full, i as int);
            }
            i = i + 1;
        }
        proof {
            assert(menu_view(*self).take(self.items@.len() as int) =~= menu_view(*self));
        }
        out
    }
}

/// Counting separators over one more item adds one exactly when the item is
/// a separator.
proof fn lemma_sep_take_snoc(items: Seq<MenuItemView>, i: int)
    requires
        0 <= i < items.len(),
    ensures
        sep_count(items.take(i + 1)) == sep_count(items.take(i)) + (if items[i] is Separator {
            1nat
        } else {
            0nat
        }),
{
    assert(items.take(i + 1).drop_last() =~= items.take(i));
    assert(items.take(i + 1).last() == items[i]);
}

/// A list's shape has one shape per item.
proof fn lemma_items_view_len(items: Seq<MenuItem>)
    ensures
        items_view(items).len() == items.len(),
        forall|j: int| 0 <= j < items.len() ==> #[trigger] items_view(items)[j] == item_view(
            items[j],
        ),
    decreases items.len(),
{
    if items.len() > 0 {
        lemma_items_view_len(items.drop_last());
        assert(forall|j: int| 0 <= j < items.len() - 1 ==> items.drop_last()[j] == items[j]);
    }
}

} // verus!
