//! What the crate's two derives generate, worked out from the text of the
//! item they are applied to. `LazyStruct` gives every field of type
//! `OnceCell<T>` a getter that runs the field's absent handler the first
//! time the value is wanted; `AllVariants` lists an enum's variants.
use proc_macro2::{Spacing, TokenTree};
use quote::ToTokens;
use syn::parse::Parser;
use syn::{Data, DataStruct, DeriveInput, Field, Fields};
use vstd::prelude::*;

verus! {

/// An attribute of a field: its path, when that path is a single
/// identifier, and the tokens inside its brackets, when it is written in
/// list form (`#[name(...)]`).
pub struct AttributeModel {
    pub ident: Option<String>,
    pub list_tokens: Option<String>,
}

/// One token of a type: its text, and whether it is punctuation joined to
/// the token after it (as the two `:` of `::`).
pub struct TypeToken {
    pub text: String,
    pub joint: bool,
}

/// A named field: its name, its type as text, its type's tokens one by
/// one, and its attributes.
pub struct FieldModel {
    pub ident: String,
    pub type_text: String,
    pub type_tokens: Vec<TypeToken>,
    pub attrs: Vec<AttributeModel>,
}

/// What kind of item a derive is applied to.
pub enum ItemData {
    /// A struct with named fields.
    NamedStruct(Vec<FieldModel>),
    /// A struct with unnamed fields or none.
    OtherStruct,
    /// An enum, with the names of its variants.
    Enum(Vec<String>),
    Union,
}

/// The item a derive is applied to: its name and its contents.
pub struct DeriveInputModel {
    pub ident: String,
    pub data: ItemData,
}

/// The kind of an item.
#[derive(Clone, Copy, Debug, PartialEq, Eq, Structural)]
pub enum ItemKind {
    NamedStruct,
    OtherStruct,
    Enum,
    Union,
}

/// An item as first parsed: its name, its kind, and its members: the text
/// of each named field of a struct, the name of each variant of an enum.
pub struct RawItem {
    pub ident: String,
    pub kind: ItemKind,
    pub members: Vec<String>,
}

/// A getter to generate: the field, the type inside its `OnceCell<...>`
/// (the field's type tokens from `inner_start` up to, not including,
/// `inner_end`, and those tokens themselves), and the absent handler's
/// tokens.
pub struct GetterModel {
    pub field: String,
    pub inner_start: usize,
    pub inner_end: usize,
    pub inner_type: Vec<TypeToken>,
    pub handler: String,
}

/// What `LazyStruct` generates for a struct: a getter per field, and a
/// constructor that starts every field (named in `field_inits`) empty.
pub struct LazyStructModel {
    pub ident: String,
    pub getters: Vec<GetterModel>,
    pub field_inits: Vec<String>,
}

/// What `AllVariants` generates for an enum: the list of its variants.
pub struct AllVariantsModel {
    pub ident: String,
    pub variants: Vec<String>,
}

/// Why a field cannot get a lazy getter.
#[derive(Clone, Copy, Debug, PartialEq, Eq, Structural)]
pub enum FieldProblem {
    /// The field's type is not written as `OnceCell<...>`, with or without
    /// a path before `OnceCell`.
    NotOnceCell,
    /// The field's type tokens hold no `OnceCell` `<` ... `>` around a type.
    NoInnerType,
    /// The field has no `absent_handler` attribute.
    NoAbsentHandler,
    /// The field has more than one `absent_handler` attribute.
    SeveralAbsentHandlers,
    /// The field's `absent_handler` attribute is not in list form.
    HandlerNotList,
}

/// Why a derive cannot be applied.
#[derive(Clone, Copy, Debug, PartialEq, Eq, Structural)]
pub enum DeriveError {
    /// The field at `index` cannot get a lazy getter.
    Field { index: usize, problem: FieldProblem },
    /// `LazyStruct` applied to something other than a struct with named
    /// fields.
    NotNamedStruct,
    /// `AllVariants` applied to something other than an enum.
    NotEnum,
}

/// The characters of an optional text.
pub open spec fn text_opt(o: Option<String>) -> Option<Seq<char>> {
    match o {
        Some(s) => Some(s@),
        None => None,
    }
}

/// The characters of each text.
pub open spec fn texts_view(s: Seq<String>) -> Seq<Seq<char>> {
    s.map_values(|t: String| t@)
}

/// An attribute with its texts as character sequences.
pub struct AttributeView {
    pub ident: Option<Seq<char>>,
    pub list_tokens: Option<Seq<char>>,
}

/// A field with its texts as character sequences; each type token is its
/// text and whether it is joined to the next.
pub struct FieldView {
    pub ident: Seq<char>,
    pub type_text: Seq<char>,
    pub type_tokens: Seq<(Seq<char>, bool)>,
    pub attrs: Seq<AttributeView>,
}

/// The contents of an item with its texts as character sequences.
pub enum ItemDataView {
    NamedStruct(Seq<FieldView>),
    OtherStruct,
    Enum(Seq<Seq<char>>),
    Union,
}

/// An item with its texts as character sequences.
pub struct DeriveInputView {
    pub ident: Seq<char>,
    pub data: ItemDataView,
}

/// A first-parsed item with its texts as character sequences.
pub struct RawItemView {
    pub ident: Seq<char>,
    pub kind: ItemKind,
    pub members: Seq<Seq<char>>,
}

impl View for AttributeModel {
    type V = AttributeView;

    open spec fn view(&self) -> AttributeView {
        AttributeView { ident: text_opt(self.ident), list_tokens: text_opt(self.list_tokens) }
    }
}

impl View for TypeToken {
    type V = (Seq<char>, bool);

    open spec fn view(&self) -> (Seq<char>, bool) {
        (self.text@, self.joint)
    }
}

/// Each token as its text and joint flag.
pub open spec fn tokens_view(s: Seq<TypeToken>) -> Seq<(Seq<char>, bool)> {
    s.map_values(|t: TypeToken| t@)
}

impl View for FieldModel {
    type V = FieldView;

    open spec fn view(&self) -> FieldView {
        FieldView {
            ident: self.ident@,
            type_text: self.type_text@,
            type_tokens: tokens_view(self.type_tokens@),
            attrs: self.attrs@.map_values(|a: AttributeModel| a@),
        }
    }
}

/// Each field's view.
pub open spec fn fields_view(s: Seq<FieldModel>) -> Seq<FieldView> {
    s.map_values(|f: FieldModel| f@)
}

impl View for ItemData {
    type V = ItemDataView;

    open spec fn view(&self) -> ItemDataView {
        match self {
            ItemData::NamedStruct(fs) => ItemDataView::NamedStruct(fields_view(fs@)),
            ItemData::OtherStruct => ItemDataView::OtherStruct,
            ItemData::Enum(vs) => ItemDataView::Enum(texts_view(vs@)),
            ItemData::Union => ItemDataView::Union,
        }
    }
}

impl View for DeriveInputModel {
    type V = DeriveInputView;

    open spec fn view(&self) -> DeriveInputView {
        DeriveInputView { ident: self.ident@, data: self.data@ }
    }
}

impl View for RawItem {
    type V = RawItemView;

    open spec fn view(&self) -> RawItemView {
        RawItemView { ident: self.ident@, kind: self.kind, members: texts_view(self.members@) }
    }
}

/// An ASCII space or line character, or ASCII punctuation other than `_`
/// and `#`: never part of an identifier's text, raw (`r#...`) or not.
pub open spec fn is_ascii_space_or_punct(c: char) -> bool {
    ||| c == ' ' || c == '\t' || c == '\n' || c == '\r'
    ||| ('!' <= c && c <= '/' && c != '#')
    ||| (':' <= c && c <= '@')
    ||| ('[' <= c && c <= '`' && c != '_')
    ||| ('{' <= c && c <= '~')
}

/// `s` can be the text of an identifier: not empty, and without spaces,
/// line breaks, brackets, quotes or other punctuation but `_` (and the `#`
/// of a raw identifier).
pub open spec fn is_identifier_text(s: Seq<char>) -> bool {
    s.len() > 0 && forall|i: int| 0 <= i < s.len() ==> !is_ascii_space_or_punct(#[trigger] s[i])
}

/// Each variant name of an enum item is an identifier's text.
pub open spec fn enum_names_are_identifiers(d: DeriveInputView) -> bool {
    d.data matches ItemDataView::Enum(vs) ==> forall|i: int|
        0 <= i < vs.len() ==> is_identifier_text(#[trigger] vs[i])
}

/// What `syn` parses the text `text` of an item into, first level only:
/// `None` when the text is no struct, enum or union.
pub uninterp spec fn parsed_item(text: Seq<char>) -> Option<RawItemView>;

/// What `syn` parses the text `text` of a named field into: `None` when
/// the text is no named field.
pub uninterp spec fn parsed_field(text: Seq<char>) -> Option<FieldView>;

/// Parses `text` with `syn::parse_str::<syn::DeriveInput>` and gives the
/// item's name, its kind, and the text (`to_token_stream().to_string()`) of
/// each named field or the name of each variant. The result is named;
/// of an enum it states that each member is a variant's identifier
/// (`Ident::to_string`), which holds no space or punctuation but `_` and
/// the `#` of `r#`. `syn`'s grammar is not written out here.
#[verifier::external_body]
fn parse_item_raw(text: &str) -> (r: Option<RawItem>)
    ensures
        match r {
            Some(raw) => parsed_item(text@) == Some(raw@),
            None => parsed_item(text@) is None,
        },
        r matches Some(raw) ==> (raw.kind == ItemKind::Enum ==> forall|i: int|
            0 <= i < raw@.members.len() ==> is_identifier_text(#[trigger] raw@.members[i])),
{
    let d: DeriveInput = syn::parse_str(text).ok()?;
    let (kind, members) = match d.data {
        Data::Struct(DataStruct { fields: Fields::Named(n), .. }) => (ItemKind::NamedStruct, n.named.iter().map(|f| f.to_token_stream().to_string()).collect()),
        Data::Struct(_) => (ItemKind::OtherStruct, Vec::new()),
        Data::Enum(e) => (ItemKind::Enum, e.variants.iter().map(|v| v.ident.to_string()).collect()),
        Data::Union(_) => (ItemKind::Union, Vec::new()),
    };
    Some(RawItem { ident: d.ident.to_string(), kind, members })
}

/// Parses `text` with `syn::Field::parse_named` and gives the field's name,
/// its type's text and tokens, and its attributes (the single identifier of
/// each path, and the tokens of each list). The contract only names the
/// result: `syn`'s grammar is not written out here.
#[verifier::external_body]
fn parse_field_text(text: &str) -> (r: Option<FieldModel>)
    ensures
        match r {
            Some(f) => parsed_field(text@) == Some(f@),
            None => parsed_field(text@) is None,
        },
{
    let f = Field::parse_named.parse_str(text).ok()?;
    let ty = f.ty.to_token_stream();
    Some(FieldModel {
        ident: f.ident.to_token_stream().to_string(),
        type_text: ty.to_string(),
        type_tokens: ty.into_iter().map(|t| TypeToken { joint: matches!(&t, TokenTree::Punct(p) if p.spacing() == Spacing::Joint), text: t.to_string() }).collect(),
        attrs: f.attrs.iter().map(|a| AttributeModel { ident: a.path().get_ident().map(|i| i.to_string()), list_tokens: a.meta.require_list().ok().map(|l| l.tokens.to_string()) }).collect(),
    })
}

/// The item that the text `text` parses into: its first level, then each
/// named field's text parsed as a field; `None` when either fails.
pub open spec fn item_of_text(text: Seq<char>) -> Option<DeriveInputView> {
    match parsed_item(text) {
        None => None,
        Some(raw) => match raw.kind {
            ItemKind::NamedStruct => if forall|i: int|
                0 <= i < raw.members.len() ==> (#[trigger] parsed_field(raw.members[i])) is Some {
                Some(
                    DeriveInputView {
                        ident: raw.ident,
                        data: ItemDataView::NamedStruct(
                            Seq::new(raw.members.len(), |i: int| parsed_field(raw.members[i]).unwrap()),
                        ),
                    },
                )
            } else {
                None
            },
            ItemKind::OtherStruct => Some(
                DeriveInputView { ident: raw.ident, data: ItemDataView::OtherStruct },
            ),
            ItemKind::Enum => Some(
                DeriveInputView { ident: raw.ident, data: ItemDataView::Enum(raw.members) },
            ),
            ItemKind::Union => Some(DeriveInputView { ident: raw.ident, data: ItemDataView::Union }),
        },
    }
}

/// What the regex engine answers for `pattern` on `haystack`: `None` when
/// it refuses the pattern, else whether `haystack` holds a match.
pub uninterp spec fn regex_match(pattern: Seq<char>, haystack: Seq<char>) -> Option<bool>;

/// The pattern that a field's type text must match as a whole: an optional
/// path (`::`, then `name ::` segments), `OnceCell`, an optional space,
/// then `<` ... `>`.
pub open spec fn once_cell_pattern() -> Seq<char> {
    "^(:: ?)?([A-Za-z_][A-Za-z0-9_]* ?:: ?)*OnceCell ?<.*>$"@
}

/// `s` is empty or a single space.
pub open spec fn optional_space(s: Seq<char>) -> bool {
    s == Seq::<char>::empty() || s == seq![' ']
}

/// A character that `[A-Za-z_]` matches.
pub open spec fn is_ident_start(c: char) -> bool {
    ('A' <= c && c <= 'Z') || ('a' <= c && c <= 'z') || c == '_'
}

/// A character that `[A-Za-z0-9_]` matches.
pub open spec fn is_ident_char(c: char) -> bool {
    is_ident_start(c) || ('0' <= c && c <= '9')
}

/// `s` is matched by `[A-Za-z_][A-Za-z0-9_]*`.
pub open spec fn is_ident_text(s: Seq<char>) -> bool {
    s.len() > 0 && is_ident_start(s[0]) && forall|i: int| 1 <= i < s.len() ==> is_ident_char(s[i])
}

/// `s` is matched by `[A-Za-z_][A-Za-z0-9_]* ?:: ?`.
pub open spec fn is_path_segment(s: Seq<char>) -> bool {
    exists|id: Seq<char>, a: Seq<char>, b: Seq<char>|
        is_ident_text(id) && optional_space(a) && optional_space(b) && s == id + a + "::"@ + b
}

/// `p` is matched by `(:: ?)?([A-Za-z_][A-Za-z0-9_]* ?:: ?)*`.
pub open spec fn is_path_prefix(p: Seq<char>) -> bool {
    exists|lead: Seq<char>, segs: Seq<Seq<char>>|
        (lead == Seq::<char>::empty() || lead == "::"@ || lead == ":: "@) && (forall|i: int|
            0 <= i < segs.len() ==> is_path_segment(#[trigger] segs[i])) && p == lead
            + segs.flatten()
}

/// The type text `t` is matched by the `OnceCell` pattern: a path prefix,
/// `OnceCell`, an optional space, `<`, any text without a line break, and
/// `>` at the very end.
pub open spec fn names_once_cell(t: Seq<char>) -> bool {
    exists|p: Seq<char>, sp: Seq<char>, m: Seq<char>|
        is_path_prefix(p) && optional_space(sp) && !m.contains('\n') && t == p + "OnceCell"@ + sp
            + "<"@ + m + ">"@
}

/// Compiles `pattern` with `regex::Regex::new` and, when that succeeds,
/// asks `Regex::is_match` on `haystack`. The result is named in general;
/// for the `OnceCell` pattern, which compiles, it is stated: whether the
/// whole of `haystack` has the pattern's shape (`^` and `$` anchor at the
/// ends of the text, `.` is any character but a line break).
#[verifier::external_body]
fn regex_is_match(pattern: &str, haystack: &str) -> (r: Option<bool>)
    ensures
        r == regex_match(pattern@, haystack@),
        pattern@ == once_cell_pattern() ==> r == Some(names_once_cell(haystack@)),
{
    match regex::Regex::new(pattern) {
        Ok(re) => Some(re.is_match(haystack)),
        Err(_) => None,
    }
}

/// Whether an attribute is an `absent_handler` attribute.
pub open spec fn is_absent_handler(a: AttributeView) -> bool {
    a.ident == Some("absent_handler"@)
}

/// The `absent_handler` attributes among `attrs`, in their order.
pub open spec fn handlers(attrs: Seq<AttributeView>) -> Seq<AttributeView>
    decreases attrs.len(),
{
    if attrs.len() == 0 {
        Seq::empty()
    } else if is_absent_handler(attrs.last()) {
        handlers(attrs.drop_last()).push(attrs.last())
    } else {
        handlers(attrs.drop_last())
    }
}

/// A `OnceCell` token followed by a `<` token stands at `k` in `toks`.
pub open spec fn opens_at(toks: Seq<(Seq<char>, bool)>, k: int) -> bool {
    0 <= k && k + 1 < toks.len() && toks[k].0 == "OnceCell"@ && toks[k + 1].0 == "<"@
}

/// `k` is the first place where `OnceCell` `<` stands in `toks`.
pub open spec fn first_open(toks: Seq<(Seq<char>, bool)>, k: int) -> bool {
    opens_at(toks, k) && forall|j: int| 0 <= j < k ==> !#[trigger] opens_at(toks, j)
}

/// The tokens hold a type between their first `OnceCell` `<` and a
/// closing `>` that is their last token.
pub open spec fn has_inner_type(toks: Seq<(Seq<char>, bool)>) -> bool {
    &&& toks.len() > 0
    &&& toks.last().0 == ">"@
    &&& exists|k: int| first_open(toks, k) && k + 2 <= toks.len() - 1
}

/// What keeps a field from getting a lazy getter, given whether its type
/// text is written as `OnceCell<...>` (`once_cell`), checked in this order:
/// the type, then its tokens, then the absent handlers.
pub open spec fn field_problem(f: FieldView, once_cell: bool) -> Option<FieldProblem> {
    if !once_cell {
        Some(FieldProblem::NotOnceCell)
    } else if !has_inner_type(f.type_tokens) {
        Some(FieldProblem::NoInnerType)
    } else if handlers(f.attrs).len() == 0 {
        Some(FieldProblem::NoAbsentHandler)
    } else if handlers(f.attrs).len() >= 2 {
        Some(FieldProblem::SeveralAbsentHandlers)
    } else if handlers(f.attrs)[0].list_tokens is None {
        Some(FieldProblem::HandlerNotList)
    } else {
        None
    }
}

/// `g` is the getter of field `f`, which has no problem: it is named after
/// the field, returns the type between the first `OnceCell` `<` and the
/// closing `>`, and runs the field's one absent handler.
pub open spec fn is_getter_of(g: GetterModel, f: FieldView) -> bool {
    let toks = f.type_tokens;
    &&& g.field@ == f.ident
    &&& g.inner_start >= 2
    &&& first_open(toks, g.inner_start - 2)
    &&& g.inner_end == toks.len() - 1
    &&& g.inner_start <= g.inner_end
    &&& tokens_view(g.inner_type@) == toks.subrange(g.inner_start as int, g.inner_end as int)
    &&& g.handler@ == handlers(f.attrs)[0].list_tokens.unwrap()
}

/// Whether the type of field `f` is written as `OnceCell<...>`.
pub open spec fn once_cell_answer(f: FieldView) -> bool {
    names_once_cell(f.type_text)
}

/// Field `f` gets a lazy getter.
pub open spec fn field_ok(f: FieldView) -> bool {
    field_problem(f, once_cell_answer(f)) is None
}

/// `e` names the first field of `fields` that gets no lazy getter, and why.
pub open spec fn is_first_problem(fields: Seq<FieldView>, e: DeriveError) -> bool {
    e matches DeriveError::Field { index, problem } && index < fields.len() && field_problem(
        fields[index as int],
        once_cell_answer(fields[index as int]),
    ) == Some(problem) && forall|j: int| 0 <= j < index ==> field_ok(#[trigger] fields[j])
}

/// `gs` are the getters of `fields`, one per field in order.
pub open spec fn are_getters_of(gs: Seq<GetterModel>, fields: Seq<FieldView>) -> bool {
    &&& gs.len() == fields.len()
    &&& forall|i: int| 0 <= i < fields.len() ==> field_ok(#[trigger] fields[i])
    &&& forall|i: int| 0 <= i < fields.len() ==> is_getter_of(#[trigger] gs[i], fields[i])
}

/// `r` is what `LazyStruct` gives for the item `d`.
pub open spec fn lazy_struct_result(d: DeriveInputView, r: Result<LazyStructModel, DeriveError>) -> bool {
    match d.data {
        ItemDataView::NamedStruct(fields) => match r {
            Ok(m) => m.ident@ == d.ident && are_getters_of(m.getters@, fields)
                && texts_view(m.field_inits@) == Seq::new(fields.len(), |i: int| fields[i].ident),
            Err(e) => is_first_problem(fields, e),
        },
        _ => r == Err::<LazyStructModel, DeriveError>(DeriveError::NotNamedStruct),
    }
}

/// `r` is what `AllVariants` gives for the item `d`.
pub open spec fn all_variants_result(d: DeriveInputView, r: Result<AllVariantsModel, DeriveError>) -> bool {
    match d.data {
        ItemDataView::Enum(variants) => r matches Ok(m) && m.ident@ == d.ident && texts_view(
            m.variants@,
        ) == variants,
        _ => r == Err::<AllVariantsModel, DeriveError>(DeriveError::NotEnum),
    }
}

/// Whether the type text `type_text` is written as `OnceCell<...>`, with or
/// without a path before `OnceCell`, as the regex engine answers for the
/// `OnceCell` pattern.
pub fn is_once_cell(type_text: &str) -> (b: bool)
    ensures
        b == names_once_cell(type_text@),
{
    match regex_is_match("^(:: ?)?([A-Za-z_][A-Za-z0-9_]* ?:: ?)*OnceCell ?<.*>$", type_text) {
        Some(b) => b,
        None => false,
    }
}

fn is_absent_handler_attr(a: &AttributeModel) -> (b: bool)
    ensures
        b == is_absent_handler(a@),
{
    match &a.ident {
        Some(id) => {
            let target = String::from_str("absent_handler");
            id.eq(&target)
        },
        None => false,
    }
}

/// The getter of field `f`, given whether its type is written as
/// `OnceCell<...>` (`once_cell`, as `is_once_cell` answers it); or what
/// keeps the field from getting one.
pub fn field_getter(f: &FieldModel, once_cell: bool) -> (r: Result<GetterModel, FieldProblem>)
    ensures
        match r {
            Ok(g) => field_problem(f@, once_cell) is None && is_getter_of(g, f@),
            Err(p) => field_problem(f@, once_cell) == Some(p),
        },
{
    if !once_cell {
        return Err(FieldProblem::NotOnceCell);
    }
    let toks = &f.type_tokens;
    let ghost tv = f@.type_tokens;
    let n = toks.len();
    let once = String::from_str("OnceCell");
    let open = String::from_str("<");
    let close = String::from_str(">");
    let mut k: usize = 0;
    let mut found = false;
    while n > 0 && k < n - 1
        invariant_except_break
            forall|j: int| 0 <= j < k ==> !#[trigger] opens_at(tv, j),
            !found,
        invariant
            n == toks@.len(),
            tv == tokens_view(toks@),
            k < n || n == 0,
            once@ == "OnceCell"@,
            open@ == "<"@,
        ensures
            found ==> first_open(tv, k as int),
            !found ==> forall|j: int| 0 <= j < tv.len() ==> !#[trigger] opens_at(tv, j),
        decreases n - k,
    {
        if toks[k].text.eq(&once) && toks[k + 1].text.eq(&open) {
            found = true;
            break;
        }
        k = k + 1;
    }
    if !found || k + 2 > n - 1 || !toks[n - 1].text.eq(&close) {
        proof {
            if found {
                assert forall|k2: int| first_open(tv, k2) implies k2 == k by {
                    if k2 < k {
                        assert(!opens_at(tv, k2));
                    }
                    if k < k2 {
                        assert(!opens_at(tv, k as int));
                    }
                }
            }
        }
        return Err(FieldProblem::NoInnerType);
    }
    let start = k + 2;
    let end = n - 1;
    let mut inner: Vec<TypeToken> = Vec::new();
    let mut i: usize = start;
    while i < end
        invariant
            n == toks@.len(),
            tv == tokens_view(toks@),
            start <= i <= end,
            end == n - 1,
            tokens_view(inner@) == tv.subrange(start as int, i as int),
        decreases end - i,
    {
        let t = TypeToken { text: toks[i].text.clone(), joint: toks[i].joint };
        assert(t@ == tv[i as int]);
        let ghost before = inner@;
        inner.push(t);
        assert(tokens_view(inner@) =~= tokens_view(before).push(t@));
        i = i + 1;
        assert(tokens_view(inner@) =~= tv.subrange(start as int, i as int));
    }
    let attrs = &f.attrs;
    let ghost av = f@.attrs;
    let m = attrs.len();
    let mut count: usize = 0;
    let mut first: usize = 0;
    let mut i: usize = 0;
    while i < m
        invariant
            m == attrs@.len(),
            av == attrs@.map_values(|a: AttributeModel| a@),
            i <= m,
            count <= i,
            count == handlers(av.take(i as int)).len(),
            count > 0 ==> first < i && av[first as int] == handlers(av.take(i as int))[0],
        decreases m - i,
    {
        assert(av.take(i + 1).drop_last() =~= av.take(i as int));
        if is_absent_handler_attr(&attrs[i]) {
            if count == 0 {
                first = i;
            }
            count = count + 1;
        }
        i = i + 1;
    }
    assert(av.take(m as int) =~= av);
    if count == 0 {
        return Err(FieldProblem::NoAbsentHandler);
    }
    if count >= 2 {
        return Err(FieldProblem::SeveralAbsentHandlers);
    }
    match &attrs[first].list_tokens {
        None => Err(FieldProblem::HandlerNotList),
        Some(tokens) => Ok(
            GetterModel {
                field: f.ident.clone(),
                inner_start: start,
                inner_end: end,
                inner_type: inner,
                handler: tokens.clone(),
            },
        ),
    }
}

/// The getters of `fields`, one per field in order; or the first field
/// that cannot get one, with the reason.
pub fn lazy_struct_gen_getters(fields: &Vec<FieldModel>) -> (r: Result<
    Vec<GetterModel>,
    DeriveError,
>)
    ensures
        match r {
            Ok(gs) => are_getters_of(gs@, fields_view(fields@)),
            Err(e) => is_first_problem(fields_view(fields@), e),
        },
{
    let ghost fv = fields_view(fields@);
    let n = fields.len();
    let mut gs: Vec<GetterModel> = Vec::new();
    let mut i: usize = 0;
    while i < n
        invariant
            n == fields@.len(),
            fv == fields_view(fields@),
            i <= n,
            gs@.len() == i,
            forall|j: int| 0 <= j < i ==> field_ok(#[trigger] fv[j]),
            forall|j: int| 0 <= j < i ==> is_getter_of(#[trigger] gs@[j], fv[j]),
        decreases n - i,
    {
        let f = &fields[i];
        assert(fv[i as int] == f@);
        let once_cell = is_once_cell(f.type_text.as_str());
        match field_getter(f, once_cell) {
            Ok(g) => gs.push(g),
            Err(problem) => {
                return Err(DeriveError::Field { index: i, problem });
            },
        }
        i = i + 1;
    }
    Ok(gs)
}

/// What `LazyStruct` generates for `input`, a struct with named fields:
/// a getter per field and a constructor that starts every field empty; or
/// why it cannot be applied.
pub fn derive_lazy_struct(input: &DeriveInputModel) -> (r: Result<LazyStructModel, DeriveError>)
    ensures
        lazy_struct_result(input@, r),
{
    match &input.data {
        ItemData::NamedStruct(fields) => {
            let ghost fv = fields_view(fields@);
            let getters = lazy_struct_gen_getters(fields)?;
            let n = fields.len();
            let mut inits: Vec<String> = Vec::new();
            let mut i: usize = 0;
            while i < n
                invariant
                    n == fields@.len(),
                    fv == fields_view(fields@),
                    i <= n,
                    texts_view(inits@) == Seq::new(i as nat, |j: int| fv[j].ident),
                decreases n - i,
            {
                let id = fields[i].ident.clone();
                assert(id@ == fv[i as int].ident);
                let ghost before = inits@;
                inits.push(id);
                assert(texts_view(inits@) =~= texts_view(before).push(id@));
                i = i + 1;
                assert(texts_view(inits@) =~= Seq::new(i as nat, |j: int| fv[j].ident));
            }
            Ok(LazyStructModel { ident: input.ident.clone(), getters, field_inits: inits })
        },
        _ => Err(DeriveError::NotNamedStruct),
    }
}

/// What `AllVariants` generates for `input`, an enum: the list of its
/// variants in declaration order; or why it cannot be applied.
pub fn derive_all_variants(input: &DeriveInputModel) -> (r: Result<AllVariantsModel, DeriveError>)
    ensures
        all_variants_result(input@, r),
{
    match &input.data {
        ItemData::Enum(variants) => {
            let n = variants.len();
            let mut out: Vec<String> = Vec::new();
            let mut i: usize = 0;
            while i < n
                invariant
                    n == variants@.len(),
                    i <= n,
                    out@ == variants@.subrange(0, i as int),
                decreases n - i,
            {
                out.push(variants[i].clone());
                i = i + 1;
                assert(out@ =~= variants@.subrange(0, i as int));
            }
            assert(variants@.subrange(0, n as int) =~= variants@);
            Ok(AllVariantsModel { ident: input.ident.clone(), variants: out })
        },
        _ => Err(DeriveError::NotEnum),
    }
}

/// The item that the text `text` parses into, or `None` when it does not
/// parse as a struct, enum or union.
pub fn parse_derive_input(text: &str) -> (r: Option<DeriveInputModel>)
    ensures
        match r {
            Some(m) => item_of_text(text@) == Some(m@),
            None => item_of_text(text@) is None,
        },
        r matches Some(m) ==> enum_names_are_identifiers(m@),
{
    let raw = parse_item_raw(text)?;
    let ghost rv = raw@;
    match raw.kind {
        ItemKind::NamedStruct => {
            let n = raw.members.len();
            let mut fields: Vec<FieldModel> = Vec::new();
            let mut i: usize = 0;
            while i < n
                invariant
                    n == raw.members@.len(),
                    rv == raw@,
                    parsed_item(text@) == Some(rv),
                    rv.kind == ItemKind::NamedStruct,
                    i <= n,
                    fields@.len() == i,
                    forall|j: int| 0 <= j < i ==> parsed_field(#[trigger] rv.members[j]) == Some(
                        fields@[j]@,
                    ),
                decreases n - i,
            {
                match parse_field_text(raw.members[i].as_str()) {
                    Some(f) => fields.push(f),
                    None => {
                        assert(parsed_field(rv.members[i as int]) is None);
                        return None;
                    },
                }
                i = i + 1;
            }
            let m = DeriveInputModel { ident: raw.ident, data: ItemData::NamedStruct(fields) };
            assert(fields_view(fields@) =~= Seq::new(
                rv.members.len(),
                |j: int| parsed_field(rv.members[j]).unwrap(),
            ));
            Some(m)
        },
        ItemKind::OtherStruct => Some(DeriveInputModel { ident: raw.ident, data: ItemData::OtherStruct }),
        ItemKind::Enum => Some(DeriveInputModel { ident: raw.ident, data: ItemData::Enum(raw.members) }),
        ItemKind::Union => Some(DeriveInputModel { ident: raw.ident, data: ItemData::Union }),
    }
}

/// `LazyStruct` applied to the item whose text is `text`: the parsed item
/// and what the derive gives for it; `None` when the text does not parse.
pub fn derive_lazy_struct_text(text: &str) -> (r: Option<(DeriveInputModel, Result<LazyStructModel, DeriveError>)>)
    ensures
        match item_of_text(text@) {
            None => r is None,
            Some(d) => r matches Some(p) && p.0@ == d && lazy_struct_result(d, p.1),
        },
        r matches Some(p) ==> enum_names_are_identifiers(p.0@),
{
    let item = parse_derive_input(text)?;
    let result = derive_lazy_struct(&item);
    Some((item, result))
}

/// `AllVariants` applied to the item whose text is `text`: the parsed item
/// and what the derive gives for it; `None` when the text does not parse.
pub fn derive_all_variants_text(text: &str) -> (r: Option<(DeriveInputModel, Result<AllVariantsModel, DeriveError>)>)
    ensures
        match item_of_text(text@) {
            None => r is None,
            Some(d) => r matches Some(p) && p.0@ == d && all_variants_result(d, p.1),
        },
        r matches Some(p) ==> (p.1 matches Ok(av) ==> forall|i: int|
            0 <= i < av.variants@.len() ==> is_identifier_text(#[trigger] av.variants@[i]@)),
{
    let item = parse_derive_input(text)?;
    let result = derive_all_variants(&item);
    proof {
        if let Ok(av) = &result {
            assert forall|i: int| 0 <= i < av.variants@.len() implies is_identifier_text(
                #[trigger] av.variants@[i]@,
            ) by {
                assert(texts_view(av.variants@)[i] == av.variants@[i]@);
            }
        }
    }
    Some((item, result))
}

/// An attribute counts as an absent handler exactly when its path is the
/// single identifier `absent_handler`: the handlers of a field are its
/// attributes of that name, in their order.
pub proof fn law_handlers_are_the_absent_handler_attributes(attrs: Seq<AttributeView>)
    ensures
        handlers(attrs) == attrs.filter(|a: AttributeView| a.ident == Some("absent_handler"@)),
    decreases attrs.len(),
{
    reveal(Seq::filter);
    if attrs.len() > 0 {
        law_handlers_are_the_absent_handler_attributes(attrs.drop_last());
    }
}

proof fn lemma_no_handlers(extra: Seq<AttributeView>)
    requires
        forall|i: int| 0 <= i < extra.len() ==> (#[trigger] extra[i]).ident != Some("absent_handler"@),
    ensures
        handlers(extra) == Seq::<AttributeView>::empty(),
    decreases extra.len(),
{
    if extra.len() > 0 {
        assert(extra.last() == extra[extra.len() - 1]);
        lemma_no_handlers(extra.drop_last());
    }
}

proof fn lemma_handlers_skip_others(extra: Seq<AttributeView>, attrs: Seq<AttributeView>)
    requires
        forall|i: int| 0 <= i < extra.len() ==> (#[trigger] extra[i]).ident != Some("absent_handler"@),
    ensures
        handlers(extra + attrs) == handlers(attrs),
    decreases attrs.len(),
{
    if attrs.len() == 0 {
        assert(extra + attrs =~= extra);
        lemma_no_handlers(extra);
    } else {
        assert((extra + attrs).drop_last() =~= extra + attrs.drop_last());
        assert((extra + attrs).last() == attrs.last());
        lemma_handlers_skip_others(extra, attrs.drop_last());
    }
}

/// Attributes of any other name (`arg`, `doc`, `allow`, ...) put in front
/// of a field's attributes change nothing of what the field gets: the same
/// problem, or the same one absent handler.
pub proof fn law_other_attributes_change_nothing(
    f: FieldView,
    extra: Seq<AttributeView>,
    once_cell: bool,
)
    requires
        forall|i: int| 0 <= i < extra.len() ==> (#[trigger] extra[i]).ident != Some("absent_handler"@),
    ensures
        handlers(extra + f.attrs) == handlers(f.attrs),
        field_problem(FieldView { attrs: extra + f.attrs, ..f }, once_cell) == field_problem(
            f,
            once_cell,
        ),
{
    lemma_handlers_skip_others(extra, f.attrs);
}

} // verus!
