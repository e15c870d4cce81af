//! Selectors: `*`, `#id` and `.class`, combined without whitespace, in comma-separated
//! lists; matching them against an id and a set of classes, and their specificity.

use vstd::prelude::*;
use vstd::string::StringExecFns;
use crate::classes::{class_items, ClassList};
use crate::tokens::{RawToken, Tok};

verus! {

/// One simple selector.
#[derive(Debug)]
pub enum SimpleSelector {
    /// `*`, which every identity matches.
    Universal,
    /// `#name`.
    Id(String),
    /// `.name`.
    Class(String),
}

/// A compound selector: simple selectors that must all match.
#[derive(Debug)]
pub struct BevyCssSelector {
    pub components: Vec<SimpleSelector>,
}

/// Selectors separated by commas: a list matches when one of them does.
#[derive(Debug)]
pub struct BevySelectorList(pub Vec<BevyCssSelector>);

/// What a selector is matched against: an optional id and a set of class names.
#[derive(Debug)]
pub struct CssTag {
    pub id: Option<String>,
    pub classes: ClassList,
}

pub open spec fn has_class(classes: Seq<String>, name: Seq<char>) -> bool {
    exists|i: int| 0 <= i < classes.len() && (#[trigger] classes[i])@ == name
}

/// Whether one simple selector matches; names compare case-sensitively.
pub open spec fn simple_matches(s: SimpleSelector, id: Option<String>, classes: Seq<String>) -> bool {
    match s {
        SimpleSelector::Universal => true,
        SimpleSelector::Id(n) => id is Some && id->Some_0@ == n@,
        SimpleSelector::Class(n) => has_class(classes, n@),
    }
}

/// Whether every simple selector of a compound matches.
pub open spec fn compound_matches(c: Seq<SimpleSelector>, id: Option<String>, classes: Seq<String>) -> bool {
    forall|i: int| 0 <= i < c.len() ==> simple_matches(#[trigger] c[i], id, classes)
}

/// Whether some selector of a list matches.
pub open spec fn list_matches(l: Seq<BevyCssSelector>, id: Option<String>, classes: Seq<String>) -> bool {
    exists|i: int| 0 <= i < l.len() && compound_matches((#[trigger] l[i]).components@, id, classes)
}

pub open spec fn count_ids(c: Seq<SimpleSelector>) -> nat
    decreases c.len(),
{
    if c.len() == 0 {
        0
    } else {
        count_ids(c.drop_last()) + if c.last() is Id { 1nat } else { 0nat }
    }
}

pub open spec fn count_classes(c: Seq<SimpleSelector>) -> nat
    decreases c.len(),
{
    if c.len() == 0 {
        0
    } else {
        count_classes(c.drop_last()) + if c.last() is Class { 1nat } else { 0nat }
    }
}

/// The largest count that each part of a specificity holds.
pub const MAX_COUNT: u32 = 1023;

pub open spec fn capped(n: nat) -> nat {
    if n > MAX_COUNT { MAX_COUNT as nat } else { n }
}

/// Specificity packed into one number: ids above classes above type selectors,
/// each counted up to [`MAX_COUNT`]; this subset has no type selectors.
pub open spec fn specificity_of(c: Seq<SimpleSelector>) -> nat {
    capped(count_ids(c)) * 1048576 + capped(count_classes(c)) * 1024
}

pub open spec fn is_ascii_ws(c: char) -> bool {
    c == ' ' || c == '\t' || c == '\n' || c == '\x0C' || c == '\r'
}

pub open spec fn has_ws(s: Seq<char>) -> bool {
    exists|i: int| 0 <= i < s.len() && is_ascii_ws(#[trigger] s[i])
}

/// The words of `s` from `i` on, separated by ASCII whitespace, after the words `acc`;
/// the current word begun at `j`.
pub open spec fn words_from(s: Seq<char>, j: int, i: int, acc: Seq<Seq<char>>) -> Seq<Seq<char>>
    decreases s.len() - i,
{
    if i >= s.len() {
        if 0 <= j < s.len() {
            acc.push(s.subrange(j, s.len() as int))
        } else {
            acc
        }
    } else if is_ascii_ws(s[i]) {
        words_from(s, i + 1, i + 1, if j < i { acc.push(s.subrange(j, i)) } else { acc })
    } else {
        words_from(s, j, i + 1, acc)
    }
}

/// The words of `s`, separated by ASCII whitespace.
pub open spec fn words(s: Seq<char>) -> Seq<Seq<char>> {
    words_from(s, 0, 0, Seq::empty())
}

pub open spec fn views(v: Seq<String>) -> Seq<Seq<char>> {
    v.map_values(|x: String| x@)
}

fn is_ascii_whitespace(c: char) -> (r: bool)
    ensures
        r == is_ascii_ws(c),
{
    c == ' ' || c == '\t' || c == '\n' || c == '\x0C' || c == '\r'
}

/// Whether `s` holds no ASCII whitespace, as ids and class names must not.
pub fn no_whitespace(s: &str) -> (r: bool)
    ensures
        r == !has_ws(s@),
{
    let n = s.unicode_len();
    let mut i: usize = 0;
    while i < n
        invariant
            n == s@.len(),
            i <= n,
            forall|k: int| 0 <= k < i ==> !is_ascii_ws(#[trigger] s@[k]),
        decreases n - i,
    {
        if is_ascii_whitespace(s.get_char(i)) {
            return false;
        }
        i = i + 1;
    }
    true
}

/// The words of `s`, separated by ASCII whitespace.
pub fn split_words(s: &str) -> (r: Vec<String>)
    ensures
        views(r@) == words(s@),
{
    let n = s.unicode_len();
    let mut out: Vec<String> = Vec::new();
    let mut j: usize = 0;
    let mut i: usize = 0;
    assert(views(out@) =~= Seq::<Seq<char>>::empty());
    while i < n
        invariant
            n == s@.len(),
            j <= i <= n,
            words(s@) == words_from(s@, j as int, i as int, views(out@)),
        decreases n - i,
    {
        if is_ascii_whitespace(s.get_char(i)) {
            if j < i {
                let ghost before = out@;
                let w = s.substring_char(j, i).to_owned();
                out.push(w);
                proof {
                    assert(views(out@) =~= views(before).push(s@.subrange(j as int, i as int)));
                }
            }
            i = i + 1;
            j = i;
        } else {
            i = i + 1;
        }
    }
    if j < n {
        let ghost before = out@;
        let w = s.substring_char(j, n).to_owned();
        out.push(w);
        proof {
            assert(views(out@) =~= views(before).push(s@.subrange(j as int, n as int)));
        }
    }
    out
}

/// The id and the class text of a selector-like string such as `#id.a.b`, read from `i`
/// on: `#` starts the id anew, `.` starts a class (a space in the class text), other
/// characters go to what was last started, and those before any `#` or `.` are ignored.
pub open spec fn tag_parts(s: Seq<char>, i: int, mode: nat, id: Seq<char>, cls: Seq<char>) -> (Seq<char>, Seq<char>)
    decreases s.len() - i,
{
    if i >= s.len() || i < 0 {
        (id, cls)
    } else if s[i] == '#' {
        tag_parts(s, i + 1, 1, Seq::empty(), cls)
    } else if s[i] == '.' {
        tag_parts(s, i + 1, 2, id, cls.push(' '))
    } else if mode == 1 {
        tag_parts(s, i + 1, 1, id.push(s[i]), cls)
    } else if mode == 2 {
        tag_parts(s, i + 1, 2, id, cls.push(s[i]))
    } else {
        tag_parts(s, i + 1, mode, id, cls)
    }
}

impl CssTag {
    /// The tag that a selector-like string such as `#id.class1.class2` describes: the
    /// last id given, and the classes. An id holds no ASCII whitespace.
    pub fn from_selectors(selectors: &str) -> (r: CssTag)
        requires
            !has_ws(tag_parts(selectors@, 0, 0, Seq::empty(), Seq::empty()).0),
        ensures
            ({
                let (id, cls) = tag_parts(selectors@, 0, 0, Seq::empty(), Seq::empty());
                &&& id.len() == 0 ==> r.id is None
                &&& id.len() > 0 ==> r.id is Some && r.id->Some_0@ == id
                &&& views(class_items(r.classes)) == words(cls)
            }),
    {
        let ghost s = selectors@;
        let n = selectors.unicode_len();
        let mut id = String::new();
        let mut cls = String::new();
        let mut mode: u8 = 0;
        let mut i: usize = 0;
        proof {
            reveal_strlit(" ");
        }
        while i < n
            invariant
                n == s.len(),
                s == selectors@,
                i <= n,
                mode <= 2,
                " "@ == seq![' '],
                tag_parts(s, 0, 0, Seq::empty(), Seq::empty()) == tag_parts(s, i as int, mode as nat, id@, cls@),
            decreases n - i,
        {
            let c = selectors.get_char(i);
            let one = selectors.substring_char(i, i + 1);
            assert(one@ =~= seq![c]);
            let ghost old_id = id@;
            let ghost old_cls = cls@;
            if c == '#' {
                mode = 1;
                id = String::new();
                assert(id@ =~= Seq::<char>::empty());
            } else if c == '.' {
                mode = 2;
                cls.append(" ");
                assert(cls@ =~= old_cls.push(' '));
            } else if mode == 1 {
                id.append(one);
                assert(id@ =~= old_id.push(c));
            } else if mode == 2 {
                cls.append(one);
                assert(cls@ =~= old_cls.push(c));
            }
            i = i + 1;
        }
        CssTag::new().id(id).class(cls)
    }

    pub fn new() -> (r: CssTag)
        ensures
            r.id is None,
            class_items(r.classes).len() == 0,
    {
        CssTag { id: None, classes: ClassList::from_vec(Vec::new()) }
    }

    /// Sets the id; an empty string sets none. An id holds no ASCII whitespace.
    pub fn id(self, id_string: String) -> (r: CssTag)
        requires
            !has_ws(id_string@),
        ensures
            r.classes == self.classes,
            id_string@.len() == 0 ==> r.id is None,
            id_string@.len() > 0 ==> r.id == Some(id_string),
    {
        let id = if id_string.as_str().unicode_len() == 0 { None } else { Some(id_string) };
        CssTag { id, classes: self.classes }
    }

    pub fn new_id(id_string: String) -> (r: CssTag)
        requires
            !has_ws(id_string@),
        ensures
            class_items(r.classes).len() == 0,
            id_string@.len() == 0 ==> r.id is None,
            id_string@.len() > 0 ==> r.id == Some(id_string),
    {
        CssTag::new().id(id_string)
    }

    pub fn new_id_str(id_str: &str) -> (r: CssTag)
        requires
            !has_ws(id_str@),
        ensures
            class_items(r.classes).len() == 0,
            id_str@.len() == 0 ==> r.id is None,
            id_str@.len() > 0 ==> r.id is Some && r.id->Some_0@ == id_str@,
    {
        CssTag::new_id(id_str.to_owned())
    }

    /// Sets the classes to the words of `classes_string`, which ASCII whitespace separates.
    pub fn class(self, classes_string: String) -> (r: CssTag)
        ensures
            r.id == self.id,
            views(class_items(r.classes)) == words(classes_string@),
    {
        CssTag { id: self.id, classes: ClassList::from_vec(split_words(classes_string.as_str())) }
    }

    pub fn new_class(classes_string: String) -> (r: CssTag)
        ensures
            r.id is None,
            views(class_items(r.classes)) == words(classes_string@),
    {
        CssTag::new().class(classes_string)
    }

    pub fn new_class_str(classes_str: &str) -> (r: CssTag)
        ensures
            r.id is None,
            views(class_items(r.classes)) == words(classes_str@),
    {
        CssTag { id: None, classes: ClassList::from_vec(split_words(classes_str)) }
    }

    /// Replaces the classes.
    pub fn with_classes(self, classes: Vec<String>) -> (r: CssTag)
        ensures
            r.id == self.id,
            class_items(r.classes) == classes@,
    {
        CssTag { id: self.id, classes: ClassList::from_vec(classes) }
    }
}

fn str_eq(a: &String, b: &String) -> (r: bool)
    ensures
        r == (a@ == b@),
{
    a.eq(b)
}

fn class_present(classes: &ClassList, name: &String) -> (r: bool)
    ensures
        r == has_class(class_items(*classes), name@),
{
    let n = classes.len();
    let mut i: usize = 0;
    while i < n
        invariant
            n == class_items(*classes).len(),
            i <= n,
            forall|j: int| 0 <= j < i ==> (#[trigger] class_items(*classes)[j])@ != name@,
        decreases n - i,
    {
        if str_eq(classes.get(i), name) {
            return true;
        }
        i = i + 1;
    }
    false
}

impl SimpleSelector {
    pub fn matches(&self, tag: &CssTag) -> (r: bool)
        ensures
            r == simple_matches(*self, tag.id, class_items(tag.classes)),
    {
        match self {
            SimpleSelector::Universal => true,
            SimpleSelector::Id(n) => match &tag.id {
                Some(x) => str_eq(x, n),
                None => false,
            },
            SimpleSelector::Class(n) => class_present(&tag.classes, n),
        }
    }
}

impl BevyCssSelector {
    pub fn matches(&self, tag: &CssTag) -> (r: bool)
        ensures
            r == compound_matches(self.components@, tag.id, class_items(tag.classes)),
    {
        let mut i: usize = 0;
        while i < self.components.len()
            invariant
                i <= self.components@.len(),
                forall|j: int| 0 <= j < i ==> simple_matches(#[trigger] self.components@[j], tag.id, class_items(tag.classes)),
            decreases self.components@.len() - i,
        {
            if !self.components[i].matches(tag) {
                return false;
            }
            i = i + 1;
        }
        true
    }

    /// The specificity, packed as `ids << 20 | classes << 10`.
    pub fn specificity(&self) -> (r: u32)
        ensures
            r == specificity_of(self.components@),
    {
        let mut ids: u32 = 0;
        let mut classes: u32 = 0;
        let mut i: usize = 0;
        while i < self.components.len()
            invariant
                i <= self.components@.len(),
                ids == capped(count_ids(self.components@.subrange(0, i as int))),
                classes == capped(count_classes(self.components@.subrange(0, i as int))),
            decreases self.components@.len() - i,
        {
            proof {
                assert(self.components@.subrange(0, i + 1).drop_last() =~= self.components@.subrange(0, i as int));
            }
            match &self.components[i] {
                SimpleSelector::Id(_) => {
                    if ids < MAX_COUNT {
                        ids = ids + 1;
                    }
                },
                SimpleSelector::Class(_) => {
                    if classes < MAX_COUNT {
                        classes = classes + 1;
                    }
                },
                SimpleSelector::Universal => {},
            }
            i = i + 1;
        }
        proof {
            assert(self.components@.subrange(0, i as int) =~= self.components@);
        }
        ids * 1048576 + classes * 1024
    }
}

/// How a simple selector is written.
pub open spec fn simple_text(s: SimpleSelector) -> Seq<char> {
    match s {
        SimpleSelector::Universal => "*"@,
        SimpleSelector::Id(n) => "#"@ + n@,
        SimpleSelector::Class(n) => "."@ + n@,
    }
}

/// How a compound selector is written: its simple selectors one after another.
pub open spec fn compound_text(c: Seq<SimpleSelector>) -> Seq<char>
    decreases c.len(),
{
    if c.len() == 0 {
        Seq::empty()
    } else {
        compound_text(c.drop_last()) + simple_text(c.last())
    }
}

/// How a selector list is written: its selectors separated by `, `.
pub open spec fn list_text(l: Seq<BevyCssSelector>) -> Seq<char>
    decreases l.len(),
{
    if l.len() == 0 {
        Seq::empty()
    } else if l.len() == 1 {
        compound_text(l[0].components@)
    } else {
        list_text(l.drop_last()) + ", "@ + compound_text(l.last().components@)
    }
}

impl BevyCssSelector {
    /// The selector written out.
    pub fn to_css_string(&self) -> (r: String)
        ensures
            r@ == compound_text(self.components@),
    {
        let mut r = String::new();
        let mut i: usize = 0;
        while i < self.components.len()
            invariant
                i <= self.components@.len(),
                r@ == compound_text(self.components@.subrange(0, i as int)),
            decreases self.components@.len() - i,
        {
            proof {
                assert(self.components@.subrange(0, i + 1).drop_last() =~= self.components@.subrange(0, i as int));
            }
            match &self.components[i] {
                SimpleSelector::Universal => r.append("*"),
                SimpleSelector::Id(n) => {
                    r.append("#");
                    r.append(n.as_str());
                },
                SimpleSelector::Class(n) => {
                    r.append(".");
                    r.append(n.as_str());
                },
            }
            i = i + 1;
        }
        proof {
            assert(self.components@.subrange(0, i as int) =~= self.components@);
        }
        r
    }
}

impl BevySelectorList {
    /// The selector list written out.
    pub fn to_css_string(&self) -> (r: String)
        ensures
            r@ == list_text(self.0@),
    {
        let mut r = String::new();
        let mut i: usize = 0;
        while i < self.0.len()
            invariant
                i <= self.0@.len(),
                r@ == list_text(self.0@.subrange(0, i as int)),
            decreases self.0@.len() - i,
        {
            proof {
                assert(self.0@.subrange(0, i + 1).drop_last() =~= self.0@.subrange(0, i as int));
            }
            if i > 0 {
                r.append(", ");
            }
            let part = self.0[i].to_css_string();
            r.append(part.as_str());
            proof {
                if i == 0 {
                    assert(r@ =~= compound_text(self.0@[0].components@));
                }
            }
            i = i + 1;
        }
        proof {
            assert(self.0@.subrange(0, i as int) =~= self.0@);
        }
        r
    }

    pub fn matches(&self, tag: &CssTag) -> (r: bool)
        ensures
            r == list_matches(self.0@, tag.id, class_items(tag.classes)),
    {
        let mut i: usize = 0;
        while i < self.0.len()
            invariant
                i <= self.0@.len(),
                forall|j: int| 0 <= j < i ==> !compound_matches((#[trigger] self.0@[j]).components@, tag.id, class_items(tag.classes)),
            decreases self.0@.len() - i,
        {
            if self.0[i].matches(tag) {
                return true;
            }
            i = i + 1;
        }
        false
    }
}

/// `s` in front of the selectors in `o`, if there are any.
pub open spec fn prepend<T>(s: T, o: Option<Seq<T>>) -> Option<Seq<T>> {
    match o {
        Some(r) => Some(seq![s] + r),
        None => None,
    }
}

/// `acc` in front of the selectors in `o`, if there are any.
pub open spec fn prefix_then<T>(acc: Seq<T>, o: Option<Seq<T>>) -> Option<Seq<T>> {
    match o {
        Some(r) => Some(acc + r),
        None => None,
    }
}

/// The simple selectors written in `toks[i..end]`, with nothing between them.
pub open spec fn compound_spec(toks: Seq<RawToken>, i: int, end: int) -> Option<Seq<SimpleSelector>>
    decreases end - i,
{
    if i >= end || i < 0 || end > toks.len() {
        if i == end { Some(Seq::empty()) } else { None }
    } else {
        match toks[i].tok {
            Tok::Delim(c) => if c == '*' {
                prepend(SimpleSelector::Universal, compound_spec(toks, i + 1, end))
            } else if c == '.' && i + 1 < end && toks[i + 1].tok is Ident {
                prepend(SimpleSelector::Class(toks[i + 1].tok->Ident_0), compound_spec(toks, i + 2, end))
            } else {
                None
            },
            Tok::IdHash(n) => prepend(SimpleSelector::Id(n), compound_spec(toks, i + 1, end)),
            _ => None,
        }
    }
}

/// The first position from `i` on that holds no whitespace.
pub open spec fn first_non_ws(toks: Seq<RawToken>, i: int, end: int) -> int
    decreases end - i,
{
    if 0 <= i < end && end <= toks.len() && toks[i].tok is WhiteSpace {
        first_non_ws(toks, i + 1, end)
    } else {
        i
    }
}

/// `j`, moved back over whitespace down to `start`.
pub open spec fn trim_end(toks: Seq<RawToken>, start: int, j: int) -> int
    decreases j - start,
{
    if start < j && 0 < j <= toks.len() && toks[j - 1].tok is WhiteSpace {
        trim_end(toks, start, j - 1)
    } else {
        j
    }
}

/// The selector written in `toks[a..b]`, whitespace around it ignored.
pub open spec fn selector_spec(toks: Seq<RawToken>, a: int, b: int) -> Option<Seq<SimpleSelector>> {
    let s = first_non_ws(toks, a, b);
    let e = trim_end(toks, s, b);
    if s >= e {
        None
    } else {
        compound_spec(toks, s, e)
    }
}

/// The selectors of a comma-separated list that ends at `end`, the current one begun at
/// `start`, read from `i`.
pub open spec fn list_from(toks: Seq<RawToken>, start: int, i: int, end: int) -> Option<Seq<Seq<SimpleSelector>>>
    decreases end - i,
{
    if i >= end {
        match selector_spec(toks, start, end) {
            Some(s) => Some(seq![s]),
            None => None,
        }
    } else if 0 <= i < toks.len() && toks[i].tok is Comma {
        match selector_spec(toks, start, i) {
            Some(s) => prepend(s, list_from(toks, i + 1, i + 1, end)),
            None => None,
        }
    } else {
        list_from(toks, start, i + 1, end)
    }
}

pub open spec fn components_of(l: Seq<BevyCssSelector>) -> Seq<Seq<SimpleSelector>> {
    l.map_values(|s: BevyCssSelector| s.components@)
}

impl SimpleSelector {
    pub fn copy(&self) -> (r: SimpleSelector)
        ensures
            r == *self,
    {
        match self {
            SimpleSelector::Universal => SimpleSelector::Universal,
            SimpleSelector::Id(n) => SimpleSelector::Id(n.clone()),
            SimpleSelector::Class(n) => SimpleSelector::Class(n.clone()),
        }
    }
}

/// Reads the simple selectors in `toks[a..end]`.
pub fn parse_compound(toks: &Vec<RawToken>, a: usize, end: usize) -> (r: Option<Vec<SimpleSelector>>)
    requires
        a <= end <= toks@.len(),
    ensures
        match r {
            Some(v) => compound_spec(toks@, a as int, end as int) == Some(v@),
            None => compound_spec(toks@, a as int, end as int) is None,
        },
{
    let mut acc: Vec<SimpleSelector> = Vec::new();
    let mut i = a;
    while i < end
        invariant
            a <= i <= end,
            end <= toks@.len(),
            compound_spec(toks@, a as int, end as int) == prefix_then(acc@, compound_spec(toks@, i as int, end as int)),
        decreases end - i,
    {
        let ghost old_acc = acc@;
        match &toks[i].tok {
            Tok::Delim(c) => {
                if *c == '*' {
                    acc.push(SimpleSelector::Universal);
                    i = i + 1;
                } else if *c == '.' && i + 1 < end {
                    match &toks[i + 1].tok {
                        Tok::Ident(n) => {
                            acc.push(SimpleSelector::Class(n.clone()));
                            i = i + 2;
                        },
                        _ => return None,
                    }
                } else {
                    return None;
                }
            },
            Tok::IdHash(n) => {
                acc.push(SimpleSelector::Id(n.clone()));
                i = i + 1;
            },
            _ => return None,
        }
        proof {
            let x = acc@.last();
            assert(acc@ == old_acc.push(x));
            match compound_spec(toks@, i as int, end as int) {
                Some(r) => {
                    assert(old_acc + (seq![x] + r) =~= acc@ + r);
                },
                None => {},
            }
        }
    }
    proof {
        assert(acc@ + Seq::<SimpleSelector>::empty() =~= acc@);
    }
    Some(acc)
}

/// Reads the selector in `toks[a..b]`, whitespace around it ignored.
pub fn parse_selector(toks: &Vec<RawToken>, a: usize, b: usize) -> (r: Option<BevyCssSelector>)
    requires
        a <= b <= toks@.len(),
    ensures
        match r {
            Some(s) => selector_spec(toks@, a as int, b as int) == Some(s.components@),
            None => selector_spec(toks@, a as int, b as int) is None,
        },
{
    let mut s = a;
    while s < b && toks[s].tok.is_whitespace()
        invariant
            a <= s <= b,
            b <= toks@.len(),
            first_non_ws(toks@, a as int, b as int) == first_non_ws(toks@, s as int, b as int),
        decreases b - s,
    {
        s = s + 1;
    }
    let mut e = b;
    while e > s && toks[e - 1].tok.is_whitespace()
        invariant
            s <= e <= b,
            b <= toks@.len(),
            s == first_non_ws(toks@, a as int, b as int),
            trim_end(toks@, s as int, b as int) == trim_end(toks@, s as int, e as int),
        decreases e - s,
    {
        e = e - 1;
    }
    if s >= e {
        return None;
    }
    match parse_compound(toks, s, e) {
        Some(c) => Some(BevyCssSelector { components: c }),
        None => None,
    }
}

impl BevySelectorList {
    /// Reads a comma-separated list of selectors from `toks`; `None` where any of them is
    /// empty or outside the supported subset.
    pub fn parse(toks: &Vec<RawToken>) -> (r: Option<BevySelectorList>)
        ensures
            match r {
                Some(l) => list_from(toks@, 0, 0, toks@.len() as int) == Some(components_of(l.0@)),
                None => list_from(toks@, 0, 0, toks@.len() as int) is None,
            },
    {
        BevySelectorList::parse_range(toks, 0, toks.len())
    }

    /// Reads a comma-separated list of selectors from `toks[a..end]`.
    pub fn parse_range(toks: &Vec<RawToken>, a: usize, end: usize) -> (r: Option<BevySelectorList>)
        requires
            a <= end <= toks@.len(),
        ensures
            match r {
                Some(l) => list_from(toks@, a as int, a as int, end as int) == Some(components_of(l.0@)),
                None => list_from(toks@, a as int, a as int, end as int) is None,
            },
    {
        let mut acc: Vec<BevyCssSelector> = Vec::new();
        let mut start: usize = a;
        let mut i: usize = a;
        while i < end
            invariant
                a <= start <= i <= end,
                end <= toks@.len(),
                list_from(toks@, a as int, a as int, end as int)
                    == prefix_then(components_of(acc@), list_from(toks@, start as int, i as int, end as int)),
            decreases end - i,
        {
            if toks[i].tok.is_comma() {
                let ghost old_acc = acc@;
                match parse_selector(toks, start, i) {
                    Some(sel) => {
                        acc.push(sel);
                        proof {
                            assert(components_of(acc@) =~= components_of(old_acc).push(acc@.last().components@));
                            match list_from(toks@, i + 1, i + 1, end as int) {
                                Some(r) => {
                                    assert(components_of(old_acc) + (seq![acc@.last().components@] + r)
                                        =~= components_of(acc@) + r);
                                },
                                None => {},
                            }
                        }
                        start = i + 1;
                    },
                    None => return None,
                }
            }
            i = i + 1;
        }
        let ghost old_acc = acc@;
        match parse_selector(toks, start, i) {
            Some(sel) => {
                acc.push(sel);
                proof {
                    assert(components_of(acc@) =~= components_of(old_acc) + seq![acc@.last().components@]);
                }
                Some(BevySelectorList(acc))
            },
            None => None,
        }
    }
}

} // verus!
