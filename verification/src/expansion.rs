//! Registration plans for trait implementations and registries: whether an
//! `impl` block can be registered, with which constructor and under which
//! names, and which names a registry static's storage and builder get.
//!
//! An argument and an item come in as the text of their tokens, and `syn`
//! reads them.
use crate::registry::{
    constructible, debug_str, implementation_of, implementations_of,
    lemma_registration_constructible, lemma_registration_reaches_its_trait_only, str_debug,
    ImplementationView, RegistryImplementation,
};
use vstd::prelude::*;

verus! {

/// One segment of a path: its identifier, and whether generic or
/// parenthesized arguments follow it.
#[derive(Debug)]
pub struct PathSegment {
    pub ident: String,
    pub has_arguments: bool,
}

/// A path such as `Trait`, `::core::fmt::Debug` or `Vec<T>`.
#[derive(Debug)]
pub struct SimplePath {
    pub leading_colon: bool,
    pub segments: Vec<PathSegment>,
}

/// [`SimplePath`] as plain values: each segment's identifier and whether
/// arguments follow it.
pub struct SimplePathView {
    pub leading_colon: bool,
    pub segments: Seq<(Seq<char>, bool)>,
}

impl View for SimplePath {
    type V = SimplePathView;

    open spec fn view(&self) -> SimplePathView {
        SimplePathView {
            leading_colon: self.leading_colon,
            segments: self.segments@.map_values(|s: PathSegment| (s.ident@, s.has_arguments)),
        }
    }
}

/// The kinds of type, other than paths, that can stand after `for` in an
/// `impl` block.
#[derive(Clone, Copy, Debug, PartialEq, Eq, Structural)]
pub enum TypeKind {
    Array,
    BareFn,
    Group,
    ImplTrait,
    Infer,
    Macro,
    Never,
    Paren,
    Ptr,
    Reference,
    Slice,
    TraitObject,
    Tuple,
    Verbatim,
}

/// The type that an `impl` block is for.
#[derive(Debug)]
pub enum SelfType {
    Path(SimplePath),
    Other(TypeKind),
}

/// [`SelfType`] as plain values.
pub enum SelfTypeView {
    Path(SimplePathView),
    Other(TypeKind),
}

impl View for SelfType {
    type V = SelfTypeView;

    open spec fn view(&self) -> SelfTypeView {
        match self {
            SelfType::Path(p) => SelfTypeView::Path(p@),
            SelfType::Other(k) => SelfTypeView::Other(*k),
        }
    }
}

/// The trait that an `impl` block implements; `negated` for `impl !Trait`.
#[derive(Debug)]
pub struct TraitRef {
    pub negated: bool,
    pub path: SimplePath,
}

/// [`TraitRef`] as plain values.
pub struct TraitRefView {
    pub negated: bool,
    pub path: SimplePathView,
}

impl View for TraitRef {
    type V = TraitRefView;

    open spec fn view(&self) -> TraitRefView {
        TraitRefView { negated: self.negated, path: self.path@ }
    }
}

/// The header of an `impl` block: `impl Trait for Type`, or `impl Type`
/// where `trait_ref` is `None`.
#[derive(Debug)]
pub struct ImplHeader {
    pub trait_ref: Option<TraitRef>,
    pub self_ty: SelfType,
}

/// [`ImplHeader`] as plain values.
pub struct ImplHeaderView {
    pub trait_ref: Option<TraitRefView>,
    pub self_ty: SelfTypeView,
}

impl View for ImplHeader {
    type V = ImplHeaderView;

    open spec fn view(&self) -> ImplHeaderView {
        ImplHeaderView {
            trait_ref: match self.trait_ref {
                Some(t) => Some(t@),
                None => None,
            },
            self_ty: self.self_ty@,
        }
    }
}

/// Why an item cannot be registered, or a registry cannot be declared.
#[derive(Debug)]
pub enum ExpandError {
    /// The argument `attr` is not an identifier; `syn`'s message.
    InvalidAttribute(String),
    /// The item is not of the kind asked for; `syn`'s message.
    InvalidItem(String),
    NotTraitImpl,
    InvertedImpl,
    TraitWithoutIdent,
    UnsupportedSelfType(TypeKind),
    TypeWithoutIdent,
    /// A name built for the generated code (the first text) is no
    /// identifier; `syn`'s message (the second).
    UnableToCreateIdentifier(String, String),
}

/// [`ExpandError`] with its texts as sequences of characters.
pub enum ExpandErrorView {
    InvalidAttribute(Seq<char>),
    InvalidItem(Seq<char>),
    NotTraitImpl,
    InvertedImpl,
    TraitWithoutIdent,
    UnsupportedSelfType(TypeKind),
    TypeWithoutIdent,
    UnableToCreateIdentifier(Seq<char>, Seq<char>),
}

impl View for ExpandError {
    type V = ExpandErrorView;

    open spec fn view(&self) -> ExpandErrorView {
        match self {
            ExpandError::InvalidAttribute(m) => ExpandErrorView::InvalidAttribute(m@),
            ExpandError::InvalidItem(m) => ExpandErrorView::InvalidItem(m@),
            ExpandError::NotTraitImpl => ExpandErrorView::NotTraitImpl,
            ExpandError::InvertedImpl => ExpandErrorView::InvertedImpl,
            ExpandError::TraitWithoutIdent => ExpandErrorView::TraitWithoutIdent,
            ExpandError::UnsupportedSelfType(k) => ExpandErrorView::UnsupportedSelfType(*k),
            ExpandError::TypeWithoutIdent => ExpandErrorView::TypeWithoutIdent,
            ExpandError::UnableToCreateIdentifier(n, m) => ExpandErrorView::UnableToCreateIdentifier(
                n@,
                m@,
            ),
        }
    }
}

/// Whether `syn` finds no tokens at all in `text` (only whitespace and
/// comments).
pub uninterp spec fn syn_no_tokens(text: Seq<char>) -> bool;

/// Calls `syn::parse_str::<syn::parse::Nothing>` on `text`, which succeeds
/// just where the text holds no tokens. The result is named
/// `syn_no_tokens`; of it only this is claimed: an empty text holds none.
#[verifier::external_body]
fn has_no_tokens(text: &str) -> (none: bool)
    ensures
        none == syn_no_tokens(text@),
        text@.len() == 0 ==> none,
{
    syn::parse_str::<syn::parse::Nothing>(text).is_ok()
}

/// What `syn` makes of `text` read as one identifier: the identifier, or
/// the message of its error.
pub uninterp spec fn syn_ident(text: Seq<char>) -> Result<Seq<char>, Seq<char>>;

/// Calls `syn::parse_str::<syn::Ident>` on `text`: the identifier it reads
/// (as its `Display` writes it) or its error's message. Both are named by
/// `syn_ident`, a function of the text alone; nothing more is claimed of
/// them (`syn` refuses keywords, other tokens and trailing input).
#[verifier::external_body]
fn parse_ident(text: &str) -> (parsed: Result<String, String>)
    ensures
        match parsed {
            Ok(ident) => syn_ident(text@) == Ok::<Seq<char>, Seq<char>>(ident@),
            Err(message) => syn_ident(text@) == Err::<Seq<char>, Seq<char>>(message@),
        },
{
    match syn::parse_str::<syn::Ident>(text) {
        Ok(ident) => Ok(ident.to_string()),
        Err(error) => Err(error.to_string()),
    }
}

#[verifier::external_type_specification]
#[verifier::external_body]
pub struct ExSynPath(syn::Path);

#[verifier::external_type_specification]
#[verifier::external_body]
pub struct ExSynType(syn::Type);

/// What `syn` makes of `text` read as one `impl` block: its header, or the
/// message of its error.
pub uninterp spec fn syn_impl_header(text: Seq<char>) -> Result<ImplHeaderView, Seq<char>>;

/// Calls `syn::parse_str::<syn::ItemImpl>` on `text` and hands back the
/// parts of the `impl` block that registration reads: the trait (with its
/// `!`) and the self type, field for field. Both the header and the error's
/// message are named by `syn_impl_header`, a function of the text alone;
/// nothing more is claimed of them.
#[verifier::external_body]
fn parse_impl_header(text: &str) -> (parsed: Result<ImplHeader, String>)
    ensures
        match parsed {
            Ok(header) => syn_impl_header(text@) == Ok::<ImplHeaderView, Seq<char>>(header@),
            Err(message) => syn_impl_header(text@) == Err::<ImplHeaderView, Seq<char>>(message@),
        },
{
    match syn::parse_str::<syn::ItemImpl>(text) {
        Ok(item) => Ok(ImplHeader {
            trait_ref: match &item.trait_ {
                Some((bang, path, _)) => Some(TraitRef { negated: bang.is_some(), path: simple_path_of(path) }),
                None => None,
            },
            self_ty: self_type_of(&item.self_ty),
        }),
        Err(error) => Err(error.to_string()),
    }
}

/// `syn::Path` as a [`SimplePath`], segment for segment: the conversion
/// that `parse_impl_header` hands its result through.
#[verifier::external_body]
fn simple_path_of(path: &syn::Path) -> SimplePath {
    let mut segments = Vec::new();
    for segment in path.segments.iter() {
        segments.push(PathSegment {
            ident: segment.ident.to_string(),
            has_arguments: !segment.arguments.is_none(),
        });
    }
    SimplePath { leading_colon: path.leading_colon.is_some(), segments }
}

/// `syn::Type` as a [`SelfType`], one arm per variant: the conversion that
/// `parse_impl_header` hands its result through.
#[verifier::external_body]
fn self_type_of(ty: &syn::Type) -> SelfType {
    match ty {
        syn::Type::Path(p) => SelfType::Path(simple_path_of(&p.path)),
        syn::Type::Array(_) => SelfType::Other(TypeKind::Array),
        syn::Type::BareFn(_) => SelfType::Other(TypeKind::BareFn),
        syn::Type::Group(_) => SelfType::Other(TypeKind::Group),
        syn::Type::ImplTrait(_) => SelfType::Other(TypeKind::ImplTrait),
        syn::Type::Infer(_) => SelfType::Other(TypeKind::Infer),
        syn::Type::Macro(_) => SelfType::Other(TypeKind::Macro),
        other => SelfType::Other(other_type_kind(other)),
    }
}

/// The remaining variants of `syn::Type`, one arm each, for
/// `self_type_of`. `syn::Type` is marked non-exhaustive, but the `syn`
/// used here has no variant beyond those named, so the last arm is never
/// taken.
#[verifier::external_body]
fn other_type_kind(ty: &syn::Type) -> TypeKind {
    match ty {
        syn::Type::Never(_) => TypeKind::Never,
        syn::Type::Paren(_) => TypeKind::Paren,
        syn::Type::Ptr(_) => TypeKind::Ptr,
        syn::Type::Reference(_) => TypeKind::Reference,
        syn::Type::Slice(_) => TypeKind::Slice,
        syn::Type::TraitObject(_) => TypeKind::TraitObject,
        syn::Type::Tuple(_) => TypeKind::Tuple,
        _ => TypeKind::Verbatim,
    }
}

/// What `syn` makes of `text` read as one `static` item: its name, or the
/// message of its error.
pub uninterp spec fn syn_static_ident(text: Seq<char>) -> Result<Seq<char>, Seq<char>>;

/// Calls `syn::parse_str::<syn::ItemStatic>` on `text`: the name of the
/// static (as its identifier's `Display` writes it) or its error's message,
/// both named by `syn_static_ident`; nothing more is claimed of them.
#[verifier::external_body]
fn parse_static_ident(text: &str) -> (parsed: Result<String, String>)
    ensures
        match parsed {
            Ok(ident) => syn_static_ident(text@) == Ok::<Seq<char>, Seq<char>>(ident@),
            Err(message) => syn_static_ident(text@) == Err::<Seq<char>, Seq<char>>(message@),
        },
{
    match syn::parse_str::<syn::ItemStatic>(text) {
        Ok(item) => Ok(item.ident.to_string()),
        Err(error) => Err(error.to_string()),
    }
}

/// The identifier that `path` consists of, where it is one: no leading
/// `::`, one segment, and no arguments on it.
pub open spec fn path_ident(path: SimplePathView) -> Option<Seq<char>> {
    if !path.leading_colon && path.segments.len() == 1 && !path.segments[0].1 {
        Some(path.segments[0].0)
    } else {
        None
    }
}

/// The identifier that `path` consists of, where it is one.
pub fn require_ident(path: &SimplePath) -> (ident: Option<&String>)
    ensures
        match path_ident(path@) {
            Some(name) => ident matches Some(i) && i@ == name,
            None => ident is None,
        },
{
    if !path.leading_colon && path.segments.len() == 1 && !path.segments[0].has_arguments {
        Some(&path.segments[0].ident)
    } else {
        None
    }
}

/// The words that name a kind of type after "a" in an error message, with
/// the "n" of "an" where it takes one.
pub open spec fn kind_words(kind: TypeKind) -> Seq<char> {
    match kind {
        TypeKind::Array => "n array"@,
        TypeKind::BareFn => " function"@,
        TypeKind::Group => " group"@,
        TypeKind::ImplTrait => " trait impl"@,
        TypeKind::Infer => "n inferred type (_)"@,
        TypeKind::Macro => " macro"@,
        TypeKind::Never => " never type"@,
        TypeKind::Paren => " parenthesis"@,
        TypeKind::Ptr => " pointer"@,
        TypeKind::Reference => " reference"@,
        TypeKind::Slice => " slice"@,
        TypeKind::TraitObject => " trait object"@,
        TypeKind::Tuple => " tuple"@,
        TypeKind::Verbatim => "n unknown syntax"@,
    }
}

fn kind_words_of(kind: TypeKind) -> (words: &'static str)
    ensures
        words@ == kind_words(kind),
{
    match kind {
        TypeKind::Array => "n array",
        TypeKind::BareFn => " function",
        TypeKind::Group => " group",
        TypeKind::ImplTrait => " trait impl",
        TypeKind::Infer => "n inferred type (_)",
        TypeKind::Macro => " macro",
        TypeKind::Never => " never type",
        TypeKind::Paren => " parenthesis",
        TypeKind::Ptr => " pointer",
        TypeKind::Reference => " reference",
        TypeKind::Slice => " slice",
        TypeKind::TraitObject => " trait object",
        TypeKind::Tuple => " tuple",
        TypeKind::Verbatim => "n unknown syntax",
    }
}

/// The message that reports `error`: for a refused item, the text with
/// `Result::expect`'s `: Error(..)` where a `syn` error stands behind it;
/// for an argument or item that does not parse, `syn`'s message.
pub open spec fn error_message(error: ExpandErrorView) -> Seq<char> {
    match error {
        ExpandErrorView::InvalidAttribute(m) => m,
        ExpandErrorView::InvalidItem(m) => m,
        ExpandErrorView::NotTraitImpl => "Can only register an implementation of a trait, 'impl <Trait> for <Type>'."@,
        ExpandErrorView::InvertedImpl => "Cannot register inverted impl trait: 'impl !Trait for Type'."@,
        ExpandErrorView::TraitWithoutIdent => "Expected trait in impl block to have an identifier.: Error(\"expected this path to be an identifier\")"@,
        ExpandErrorView::UnsupportedSelfType(kind) => "Cannot register implementation on a"@
            + kind_words(kind) + ", expected a struct, enum, union or type alias."@,
        ExpandErrorView::TypeWithoutIdent => "Expected type in impl block to have an identifier.: Error(\"expected this path to be an identifier\")"@,
        ExpandErrorView::UnableToCreateIdentifier(_, m) => "Unable to create identifier: Error("@
            + str_debug(m) + ")"@,
    }
}

impl ExpandError {
    /// The message that reports the error.
    pub fn message(&self) -> (message: String)
        ensures
            message@ == error_message(self@),
    {
        let mut message = String::new();
        match self {
            ExpandError::InvalidAttribute(m) => {
                message.append(m.as_str());
            },
            ExpandError::InvalidItem(m) => {
                message.append(m.as_str());
            },
            ExpandError::NotTraitImpl => {
                message.append(
                    "Can only register an implementation of a trait, 'impl <Trait> for <Type>'.",
                );
            },
            ExpandError::InvertedImpl => {
                message.append("Cannot register inverted impl trait: 'impl !Trait for Type'.");
            },
            ExpandError::TraitWithoutIdent => {
                message.append(
                    "Expected trait in impl block to have an identifier.: Error(\"expected this path to be an identifier\")",
                );
            },
            ExpandError::UnsupportedSelfType(kind) => {
                message.append("Cannot register implementation on a");
                message.append(kind_words_of(*kind));
                message.append(", expected a struct, enum, union or type alias.");
            },
            ExpandError::TypeWithoutIdent => {
                message.append(
                    "Expected type in impl block to have an identifier.: Error(\"expected this path to be an identifier\")",
                );
            },
            ExpandError::UnableToCreateIdentifier(_, m) => {
                message.append("Unable to create identifier: Error(");
                message.append(debug_str(m.as_str()).as_str());
                message.append(")");
            },
        }
        message
    }
}

/// The path of the type that `self_ty` is; only a path can carry a
/// registration, and the other kinds of type are refused before this is
/// asked (see `registration_plan`).
pub fn get_self_type_path(self_ty: &SelfType) -> (path: &SimplePath)
    requires
        self_ty@ is Path,
    ensures
        path@ == self_ty@->Path_0,
{
    match self_ty {
        SelfType::Path(p) => p,
        SelfType::Other(_) => vstd::pervasive::unreached(),
    }
}

/// A text as `syn` read it: the identifier, or the message of its error.
pub open spec fn text_result(r: Result<String, String>) -> Result<Seq<char>, Seq<char>> {
    match r {
        Ok(t) => Ok(t@),
        Err(m) => Err(m@),
    }
}

/// A header as `syn` read it, or the message of its error.
pub open spec fn header_result(r: Result<ImplHeader, String>) -> Result<ImplHeaderView, Seq<char>> {
    match r {
        Ok(h) => Ok(h@),
        Err(m) => Err(m@),
    }
}

/// What `register` decides for an implementation.
#[derive(Debug)]
pub struct Registration {
    /// The function that builds an instance, named by the argument.
    pub constructor: Option<String>,
    pub has_constructor: bool,
    /// The name of the type, which is also its path.
    pub name: String,
    pub trait_name: String,
    /// The static that registers the implementation before `main` runs.
    pub register_static: String,
    /// The function that this static points to.
    pub register_static_fn: String,
}

/// [`Registration`] with its texts as sequences of characters.
pub struct RegistrationView {
    pub constructor: Option<Seq<char>>,
    pub has_constructor: bool,
    pub name: Seq<char>,
    pub trait_name: Seq<char>,
    pub register_static: Seq<char>,
    pub register_static_fn: Seq<char>,
}

impl View for Registration {
    type V = RegistrationView;

    open spec fn view(&self) -> RegistrationView {
        RegistrationView {
            constructor: match self.constructor {
                Some(c) => Some(c@),
                None => None,
            },
            has_constructor: self.has_constructor,
            name: self.name@,
            trait_name: self.trait_name@,
            register_static: self.register_static@,
            register_static_fn: self.register_static_fn@,
        }
    }
}

/// A registration whose generated names are still to be read as
/// identifiers.
#[derive(Debug)]
pub struct RegistrationPlan {
    pub constructor: Option<String>,
    pub name: String,
    pub trait_name: String,
    /// The name for the static that registers the implementation.
    pub static_text: String,
    /// The name for the function that this static points to.
    pub fn_text: String,
}

/// [`RegistrationPlan`] with its texts as sequences of characters.
pub struct RegistrationPlanView {
    pub constructor: Option<Seq<char>>,
    pub name: Seq<char>,
    pub trait_name: Seq<char>,
    pub static_text: Seq<char>,
    pub fn_text: Seq<char>,
}

impl View for RegistrationPlan {
    type V = RegistrationPlanView;

    open spec fn view(&self) -> RegistrationPlanView {
        RegistrationPlanView {
            constructor: match self.constructor {
                Some(c) => Some(c@),
                None => None,
            },
            name: self.name@,
            trait_name: self.trait_name@,
            static_text: self.static_text@,
            fn_text: self.fn_text@,
        }
    }
}

/// The constructor that the argument `attr` names: none where
/// it holds no tokens, else the identifier that `syn` reads in it.
pub open spec fn constructor_of(attr: Seq<char>) -> Result<Option<Seq<char>>, Seq<char>> {
    if syn_no_tokens(attr) {
        Ok(None)
    } else {
        match syn_ident(attr) {
            Ok(ident) => Ok(Some(ident)),
            Err(message) => Err(message),
        }
    }
}

/// A constructor as read from the argument, or `syn`'s message.
pub open spec fn constructor_result(r: Result<Option<String>, String>) -> Result<
    Option<Seq<char>>,
    Seq<char>,
> {
    match r {
        Ok(Some(c)) => Ok(Some(c@)),
        Ok(None) => Ok(None),
        Err(m) => Err(m@),
    }
}

/// The plan that `register` makes, given what was read of the argument
/// and of the item: the argument is looked at first, then the
/// item, its trait, the trait's `!`, the trait's name, the self type and
/// the self type's name.
pub open spec fn plan_outcome(
    constructor: Result<Option<Seq<char>>, Seq<char>>,
    item: Result<ImplHeaderView, Seq<char>>,
) -> Result<RegistrationPlanView, ExpandErrorView> {
    match constructor {
        Err(message) => Err(ExpandErrorView::InvalidAttribute(message)),
        Ok(constructor) => match item {
            Err(message) => Err(ExpandErrorView::InvalidItem(message)),
            Ok(header) => match header.trait_ref {
                None => Err(ExpandErrorView::NotTraitImpl),
                Some(trait_ref) => if trait_ref.negated {
                    Err(ExpandErrorView::InvertedImpl)
                } else {
                    match path_ident(trait_ref.path) {
                        None => Err(ExpandErrorView::TraitWithoutIdent),
                        Some(trait_name) => match header.self_ty {
                            SelfTypeView::Other(kind) => Err(
                                ExpandErrorView::UnsupportedSelfType(kind),
                            ),
                            SelfTypeView::Path(type_path) => match path_ident(type_path) {
                                None => Err(ExpandErrorView::TypeWithoutIdent),
                                Some(name) => Ok(
                                    RegistrationPlanView {
                                        constructor,
                                        name,
                                        trait_name,
                                        static_text: name + "_"@ + trait_name + "__Register"@,
                                        fn_text: name + "_"@ + trait_name + "__RegisterFn"@,
                                    },
                                ),
                            },
                        },
                    }
                },
            },
        },
    }
}

/// The registration that `plan` comes to, given what `syn` read of its two
/// generated names.
pub open spec fn completion(
    plan: RegistrationPlanView,
    static_ident: Result<Seq<char>, Seq<char>>,
    fn_ident: Result<Seq<char>, Seq<char>>,
) -> Result<RegistrationView, ExpandErrorView> {
    match (static_ident, fn_ident) {
        (Err(m), _) => Err(ExpandErrorView::UnableToCreateIdentifier(plan.static_text, m)),
        (Ok(_), Err(m)) => Err(ExpandErrorView::UnableToCreateIdentifier(plan.fn_text, m)),
        (Ok(register_static), Ok(register_static_fn)) => Ok(
            RegistrationView {
                constructor: plan.constructor,
                has_constructor: plan.constructor is Some,
                name: plan.name,
                trait_name: plan.trait_name,
                register_static,
                register_static_fn,
            },
        ),
    }
}

/// The outcome of `register` with the argument `attr` on the item `item`,
/// both given as the text of their tokens.
pub open spec fn register_outcome(attr: Seq<char>, item: Seq<char>) -> Result<
    RegistrationView,
    ExpandErrorView,
> {
    match plan_outcome(constructor_of(attr), syn_impl_header(item)) {
        Err(e) => Err(e),
        Ok(plan) => completion(plan, syn_ident(plan.static_text), syn_ident(plan.fn_text)),
    }
}

/// Reads the constructor that the argument `attr` names.
fn parse_constructor(attr: &str) -> (constructor: Result<Option<String>, String>)
    ensures
        constructor_result(constructor) == constructor_of(attr@),
{
    if has_no_tokens(attr) {
        Ok(None)
    } else {
        match parse_ident(attr) {
            Ok(ident) => Ok(Some(ident)),
            Err(message) => Err(message),
        }
    }
}

/// `first` + `middle` + `second` + `last`, as one text.
fn join4(first: &str, middle: &str, second: &str, last: &str) -> (joined: String)
    ensures
        joined@ == first@ + middle@ + second@ + last@,
{
    let mut joined = String::new();
    joined.append(first);
    joined.append(middle);
    joined.append(second);
    joined.append(last);
    joined
}

/// Checks the item and plans its registration, given what was read of the
/// argument (the constructor it names, or `syn`'s message) and
/// of the item (the header of an `impl` block, or `syn`'s message).
pub fn registration_plan(
    constructor: Result<Option<String>, String>,
    item: Result<ImplHeader, String>,
) -> (plan: Result<RegistrationPlan, ExpandError>)
    ensures
        match plan_outcome(constructor_result(constructor), header_result(item)) {
            Ok(p) => plan matches Ok(q) && q@ == p,
            Err(e) => plan matches Err(f) && f@ == e,
        },
{
    let constructor = match constructor {
        Ok(c) => c,
        Err(message) => {
            return Err(ExpandError::InvalidAttribute(message));
        },
    };
    let header = match item {
        Ok(h) => h,
        Err(message) => {
            return Err(ExpandError::InvalidItem(message));
        },
    };
    let trait_ref = match &header.trait_ref {
        Some(t) => t,
        None => {
            return Err(ExpandError::NotTraitImpl);
        },
    };
    if trait_ref.negated {
        return Err(ExpandError::InvertedImpl);
    }
    let trait_ident = match require_ident(&trait_ref.path) {
        Some(i) => i,
        None => {
            return Err(ExpandError::TraitWithoutIdent);
        },
    };
    if let SelfType::Other(kind) = &header.self_ty {
        return Err(ExpandError::UnsupportedSelfType(*kind));
    }
    let type_path = get_self_type_path(&header.self_ty);
    let type_ident = match require_ident(type_path) {
        Some(i) => i,
        None => {
            return Err(ExpandError::TypeWithoutIdent);
        },
    };
    let static_text = join4(type_ident.as_str(), "_", trait_ident.as_str(), "__Register");
    let fn_text = join4(type_ident.as_str(), "_", trait_ident.as_str(), "__RegisterFn");
    Ok(
        RegistrationPlan {
            constructor,
            name: type_ident.clone(),
            trait_name: trait_ident.clone(),
            static_text,
            fn_text,
        },
    )
}

/// Completes the registration `plan` with what `syn` read of its generated
/// names.
pub fn complete_registration(
    plan: RegistrationPlan,
    static_ident: Result<String, String>,
    fn_ident: Result<String, String>,
) -> (registration: Result<Registration, ExpandError>)
    ensures
        match completion(plan@, text_result(static_ident), text_result(fn_ident)) {
            Ok(r) => registration matches Ok(s) && s@ == r,
            Err(e) => registration matches Err(f) && f@ == e,
        },
{
    let register_static = match static_ident {
        Ok(i) => i,
        Err(m) => {
            return Err(ExpandError::UnableToCreateIdentifier(plan.static_text, m));
        },
    };
    let register_static_fn = match fn_ident {
        Ok(i) => i,
        Err(m) => {
            return Err(ExpandError::UnableToCreateIdentifier(plan.fn_text, m));
        },
    };
    let has_constructor = plan.constructor.is_some();
    Ok(
        Registration {
            constructor: plan.constructor,
            has_constructor,
            name: plan.name,
            trait_name: plan.trait_name,
            register_static,
            register_static_fn,
        },
    )
}

/// Decides the registration, with the argument `attr`, of the item
/// `item`; both are the text of their tokens.
pub fn register(attr: &str, item: &str) -> (registration: Result<Registration, ExpandError>)
    ensures
        match register_outcome(attr@, item@) {
            Ok(r) => registration matches Ok(s) && s@ == r,
            Err(e) => registration matches Err(f) && f@ == e,
        },
{
    let constructor = parse_constructor(attr);
    let header = parse_impl_header(item);
    let plan = match registration_plan(constructor, header) {
        Ok(p) => p,
        Err(e) => {
            return Err(e);
        },
    };
    let static_ident = parse_ident(plan.static_text.as_str());
    let fn_ident = parse_ident(plan.fn_text.as_str());
    complete_registration(plan, static_ident, fn_ident)
}

/// What `registry` decides for a registry static.
#[derive(Debug)]
pub struct RegistryExpansion {
    /// The name of the trait whose implementations the registry holds.
    pub trait_name: String,
    /// The static that holds the storage once it is built.
    pub storage: String,
    /// The type of the registry static, through which the storage is read.
    pub wrapper_struct: String,
    /// The static that builds the storage before `main` runs.
    pub build_static: String,
    /// The function that this static points to.
    pub build_static_fn: String,
}

/// [`RegistryExpansion`] with its texts as sequences of characters.
pub struct RegistryExpansionView {
    pub trait_name: Seq<char>,
    pub storage: Seq<char>,
    pub wrapper_struct: Seq<char>,
    pub build_static: Seq<char>,
    pub build_static_fn: Seq<char>,
}

impl View for RegistryExpansion {
    type V = RegistryExpansionView;

    open spec fn view(&self) -> RegistryExpansionView {
        RegistryExpansionView {
            trait_name: self.trait_name@,
            storage: self.storage@,
            wrapper_struct: self.wrapper_struct@,
            build_static: self.build_static@,
            build_static_fn: self.build_static_fn@,
        }
    }
}

/// The names that `registry` builds for a static, before
/// they are read as identifiers.
#[derive(Debug)]
pub struct RegistryNames {
    pub storage: String,
    pub wrapper_struct: String,
    pub build_static: String,
    pub build_static_fn: String,
}

impl RegistryNames {
    pub open spec fn texts(&self) -> Seq<Seq<char>> {
        seq![self.storage@, self.wrapper_struct@, self.build_static@, self.build_static_fn@]
    }
}

/// The names built for the static named `item`, in the order in which they
/// are read.
pub open spec fn registry_texts(item: Seq<char>) -> Seq<Seq<char>> {
    seq![item + "__STORAGE"@, item + "__Registry"@, item + "__Build"@, item + "__BuildFn"@]
}

/// A registry whose generated names are still to be read as identifiers.
#[derive(Debug)]
pub struct RegistryPlan {
    pub trait_name: String,
    pub names: RegistryNames,
}

/// [`RegistryPlan`] as plain values.
pub struct RegistryPlanView {
    pub trait_name: Seq<char>,
    pub texts: Seq<Seq<char>>,
}

impl View for RegistryPlan {
    type V = RegistryPlanView;

    open spec fn view(&self) -> RegistryPlanView {
        RegistryPlanView { trait_name: self.trait_name@, texts: self.names.texts() }
    }
}

/// The plan that `registry` makes, given what `syn` read of its argument
/// (the trait's name) and of the item (the static's name): the argument is
/// looked at first.
pub open spec fn registry_plan_outcome(
    trait_ident: Result<Seq<char>, Seq<char>>,
    static_ident: Result<Seq<char>, Seq<char>>,
) -> Result<RegistryPlanView, ExpandErrorView> {
    match trait_ident {
        Err(message) => Err(ExpandErrorView::InvalidAttribute(message)),
        Ok(trait_name) => match static_ident {
            Err(message) => Err(ExpandErrorView::InvalidItem(message)),
            Ok(item) => Ok(RegistryPlanView { trait_name, texts: registry_texts(item) }),
        },
    }
}

/// The expansion that `plan` comes to, given what `syn` read of each of
/// its four names, in order.
pub open spec fn registry_completion(
    plan: RegistryPlanView,
    idents: Seq<Result<Seq<char>, Seq<char>>>,
) -> Result<RegistryExpansionView, ExpandErrorView> {
    if idents[0] is Err {
        Err(ExpandErrorView::UnableToCreateIdentifier(plan.texts[0], idents[0]->Err_0))
    } else if idents[1] is Err {
        Err(ExpandErrorView::UnableToCreateIdentifier(plan.texts[1], idents[1]->Err_0))
    } else if idents[2] is Err {
        Err(ExpandErrorView::UnableToCreateIdentifier(plan.texts[2], idents[2]->Err_0))
    } else if idents[3] is Err {
        Err(ExpandErrorView::UnableToCreateIdentifier(plan.texts[3], idents[3]->Err_0))
    } else {
        Ok(
            RegistryExpansionView {
                trait_name: plan.trait_name,
                storage: idents[0]->Ok_0,
                wrapper_struct: idents[1]->Ok_0,
                build_static: idents[2]->Ok_0,
                build_static_fn: idents[3]->Ok_0,
            },
        )
    }
}

/// The outcome of `registry` with the argument `attr` on the item `item`,
/// both given as the text of their tokens.
pub open spec fn registry_outcome(attr: Seq<char>, item: Seq<char>) -> Result<
    RegistryExpansionView,
    ExpandErrorView,
> {
    match registry_plan_outcome(syn_ident(attr), syn_static_ident(item)) {
        Err(e) => Err(e),
        Ok(plan) => registry_completion(
            plan,
            seq![
                syn_ident(plan.texts[0]),
                syn_ident(plan.texts[1]),
                syn_ident(plan.texts[2]),
                syn_ident(plan.texts[3]),
            ],
        ),
    }
}

/// `item` + `suffix`, as one text.
fn join2(item: &str, suffix: &str) -> (joined: String)
    ensures
        joined@ == item@ + suffix@,
{
    let mut joined = String::new();
    joined.append(item);
    joined.append(suffix);
    joined
}

/// The names that `registry` builds for the static named
/// `item`.
pub fn registry_names(item: &str) -> (names: RegistryNames)
    ensures
        names.texts() == registry_texts(item@),
{
    let names = RegistryNames {
        storage: join2(item, "__STORAGE"),
        wrapper_struct: join2(item, "__Registry"),
        build_static: join2(item, "__Build"),
        build_static_fn: join2(item, "__BuildFn"),
    };
    assert(names.texts() =~= registry_texts(item@));
    names
}

/// Plans a registry, given what `syn` read of the argument
/// (`trait_ident`) and of the item (`static_ident`, the static's name).
pub fn registry_plan(trait_ident: Result<String, String>, static_ident: Result<String, String>) -> (plan:
    Result<RegistryPlan, ExpandError>)
    ensures
        match registry_plan_outcome(text_result(trait_ident), text_result(static_ident)) {
            Ok(p) => plan matches Ok(q) && q@ == p,
            Err(e) => plan matches Err(f) && f@ == e,
        },
{
    let trait_name = match trait_ident {
        Ok(i) => i,
        Err(message) => {
            return Err(ExpandError::InvalidAttribute(message));
        },
    };
    let item = match static_ident {
        Ok(i) => i,
        Err(message) => {
            return Err(ExpandError::InvalidItem(message));
        },
    };
    let names = registry_names(item.as_str());
    Ok(RegistryPlan { trait_name, names })
}

/// Completes the registry `plan` with what `syn` read of each of its
/// names.
pub fn complete_registry(
    plan: RegistryPlan,
    storage: Result<String, String>,
    wrapper_struct: Result<String, String>,
    build_static: Result<String, String>,
    build_static_fn: Result<String, String>,
) -> (expansion: Result<RegistryExpansion, ExpandError>)
    ensures
        match registry_completion(
            plan@,
            seq![
                text_result(storage),
                text_result(wrapper_struct),
                text_result(build_static),
                text_result(build_static_fn),
            ],
        ) {
            Ok(r) => expansion matches Ok(s) && s@ == r,
            Err(e) => expansion matches Err(f) && f@ == e,
        },
{
    let names = plan.names;
    let storage = match storage {
        Ok(i) => i,
        Err(m) => {
            return Err(ExpandError::UnableToCreateIdentifier(names.storage, m));
        },
    };
    let wrapper_struct = match wrapper_struct {
        Ok(i) => i,
        Err(m) => {
            return Err(ExpandError::UnableToCreateIdentifier(names.wrapper_struct, m));
        },
    };
    let build_static = match build_static {
        Ok(i) => i,
        Err(m) => {
            return Err(ExpandError::UnableToCreateIdentifier(names.build_static, m));
        },
    };
    let build_static_fn = match build_static_fn {
        Ok(i) => i,
        Err(m) => {
            return Err(ExpandError::UnableToCreateIdentifier(names.build_static_fn, m));
        },
    };
    Ok(
        RegistryExpansion {
            trait_name: plan.trait_name,
            storage,
            wrapper_struct,
            build_static,
            build_static_fn,
        },
    )
}

/// Decides the registry for the item `item` (a static), with the argument
/// `attr` (the trait's name); both are the text of their tokens.
pub fn registry(attr: &str, item: &str) -> (expansion: Result<RegistryExpansion, ExpandError>)
    ensures
        match registry_outcome(attr@, item@) {
            Ok(r) => expansion matches Ok(s) && s@ == r,
            Err(e) => expansion matches Err(f) && f@ == e,
        },
{
    let trait_ident = parse_ident(attr);
    let static_ident = parse_static_ident(item);
    let plan = match registry_plan(trait_ident, static_ident) {
        Ok(p) => p,
        Err(e) => {
            return Err(e);
        },
    };
    let storage = parse_ident(plan.names.storage.as_str());
    let wrapper_struct = parse_ident(plan.names.wrapper_struct.as_str());
    let build_static = parse_ident(plan.names.build_static.as_str());
    let build_static_fn = parse_ident(plan.names.build_static_fn.as_str());
    complete_registry(plan, storage, wrapper_struct, build_static, build_static_fn)
}

/// An implementation registered with a non-blank argument has a
/// constructor, and one registered without has none; a registration is
/// always of a trait implementation (no `!`) whose trait and type are each
/// named by a single identifier.
pub proof fn lemma_registration_shape(attr: Seq<char>, item: Seq<char>)
    ensures
        register_outcome(attr, item) matches Ok(r) ==> {
            &&& r.has_constructor <==> !syn_no_tokens(attr)
            &&& r.has_constructor <==> r.constructor is Some
            &&& syn_impl_header(item) is Ok
            &&& syn_impl_header(item)->Ok_0.trait_ref is Some
            &&& !syn_impl_header(item)->Ok_0.trait_ref->Some_0.negated
            &&& path_ident(syn_impl_header(item)->Ok_0.trait_ref->Some_0.path) == Some(r.trait_name)
            &&& syn_impl_header(item)->Ok_0.self_ty is Path
            &&& path_ident(syn_impl_header(item)->Ok_0.self_ty->Path_0) == Some(r.name)
        },
{
}

/// The constructor that a registration records is the identifier that
/// `syn` reads in the argument, and none where the argument holds no
/// tokens; an argument that is not an identifier is refused with `syn`'s
/// message, and after it an item that `syn` cannot read as an `impl` block.
/// The registration statics are named after the type and the
/// trait, joined by `_` and followed by `__Register` and `__RegisterFn`.
pub proof fn lemma_register_names(attr: Seq<char>, item: Seq<char>)
    ensures
        register_outcome(attr, item) matches Ok(r) ==> {
            &&& syn_no_tokens(attr) ==> r.constructor is None
            &&& !syn_no_tokens(attr) ==> syn_ident(attr) is Ok && r.constructor == Some(
                syn_ident(attr)->Ok_0,
            )
            &&& syn_ident(r.name + "_"@ + r.trait_name + "__Register"@) == Ok::<
                Seq<char>,
                Seq<char>,
            >(r.register_static)
            &&& syn_ident(r.name + "_"@ + r.trait_name + "__RegisterFn"@) == Ok::<
                Seq<char>,
                Seq<char>,
            >(r.register_static_fn)
        },
        !syn_no_tokens(attr) && syn_ident(attr) is Err ==> register_outcome(attr, item) == Err::<
            RegistrationView,
            ExpandErrorView,
        >(ExpandErrorView::InvalidAttribute(syn_ident(attr)->Err_0)),
        (syn_no_tokens(attr) || syn_ident(attr) is Ok) && syn_impl_header(item) is Err
            ==> register_outcome(attr, item) == Err::<RegistrationView, ExpandErrorView>(
            ExpandErrorView::InvalidItem(syn_impl_header(item)->Err_0),
        ),
{
}

/// A registry holds the implementations of the trait whose name is the
/// identifier that `syn` reads in the argument; its storage, wrapper type
/// and build statics are named after the static, followed by `__STORAGE`,
/// `__Registry`, `__Build` and `__BuildFn`. An argument that is not an
/// identifier is refused with `syn`'s message, and after it an item that
/// `syn` cannot read as a static; the registry is made exactly when the
/// argument, the static's name and each of the four names read as
/// identifiers.
pub proof fn lemma_registry_names(attr: Seq<char>, item: Seq<char>)
    ensures
        registry_outcome(attr, item) matches Ok(r) ==> {
            &&& syn_ident(attr) == Ok::<Seq<char>, Seq<char>>(r.trait_name)
            &&& syn_static_ident(item) is Ok
            &&& syn_ident(syn_static_ident(item)->Ok_0 + "__STORAGE"@) == Ok::<
                Seq<char>,
                Seq<char>,
            >(r.storage)
            &&& syn_ident(syn_static_ident(item)->Ok_0 + "__Registry"@) == Ok::<
                Seq<char>,
                Seq<char>,
            >(r.wrapper_struct)
            &&& syn_ident(syn_static_ident(item)->Ok_0 + "__Build"@) == Ok::<
                Seq<char>,
                Seq<char>,
            >(r.build_static)
            &&& syn_ident(syn_static_ident(item)->Ok_0 + "__BuildFn"@) == Ok::<
                Seq<char>,
                Seq<char>,
            >(r.build_static_fn)
        },
        syn_ident(attr) is Err ==> registry_outcome(attr, item) == Err::<
            RegistryExpansionView,
            ExpandErrorView,
        >(ExpandErrorView::InvalidAttribute(syn_ident(attr)->Err_0)),
        syn_ident(attr) is Ok && syn_static_ident(item) is Err ==> registry_outcome(attr, item)
            == Err::<RegistryExpansionView, ExpandErrorView>(
            ExpandErrorView::InvalidItem(syn_static_ident(item)->Err_0),
        ),
        registry_outcome(attr, item) is Ok <==> {
            &&& syn_ident(attr) is Ok
            &&& syn_static_ident(item) is Ok
            &&& syn_ident(syn_static_ident(item)->Ok_0 + "__STORAGE"@) is Ok
            &&& syn_ident(syn_static_ident(item)->Ok_0 + "__Registry"@) is Ok
            &&& syn_ident(syn_static_ident(item)->Ok_0 + "__Build"@) is Ok
            &&& syn_ident(syn_static_ident(item)->Ok_0 + "__BuildFn"@) is Ok
        },
{
}

/// Whether the implementation `Type` records what `registration` decided:
/// the type's name (which is also its path), the trait's name, and whether
/// it has a constructor.
pub open spec fn records_registration<Trait, Type: RegistryImplementation<Trait>>(
    registration: RegistrationView,
) -> bool {
    &&& Type::NAME@ == registration.name
    &&& Type::PATH@ == registration.name
    &&& Type::TRAIT_NAME@ == registration.trait_name
    &&& Type::HAS_CONSTRUCTOR == registration.has_constructor
}

/// Registering an implementation that records a registration adds, after
/// the implementations registered before it, a record with the planned
/// names to the implementations of the planned trait; and it adds one to
/// those that can be built exactly when the registration has a
/// constructor.
pub proof fn lemma_registered_as_planned<Trait, Type: RegistryImplementation<Trait>>(
    registration: RegistrationView,
    impls: Seq<ImplementationView<Trait>>,
)
    requires
        records_registration::<Trait, Type>(registration),
    ensures
        implementation_of::<Trait, Type>().name == registration.name,
        implementation_of::<Trait, Type>().path == registration.name,
        implementation_of::<Trait, Type>().trait_name == registration.trait_name,
        implementation_of::<Trait, Type>().has_constructor == registration.has_constructor,
        implementations_of(impls.push(implementation_of::<Trait, Type>()), registration.trait_name)
            == implementations_of(impls, registration.trait_name).push(
            implementation_of::<Trait, Type>(),
        ),
        constructible(impls.push(implementation_of::<Trait, Type>())) == if registration.has_constructor {
            constructible(impls).push(implementation_of::<Trait, Type>())
        } else {
            constructible(impls)
        },
{
    lemma_registration_reaches_its_trait_only(
        impls,
        implementation_of::<Trait, Type>(),
        registration.trait_name,
    );
    lemma_registration_constructible(impls, implementation_of::<Trait, Type>());
}

} // verus!
