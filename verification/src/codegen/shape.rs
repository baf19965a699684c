//! The shape of a declared entity type: what the generators read of it.
//!
//! These types hold, as plain values, the parts of a struct declaration that
//! decide what is generated: its name, its generic parameters, its fields with
//! their types, and its attributes. A front end fills them in from the source
//! it has parsed. Each has a view over sequences, and the contracts of the
//! generators are stated over those views.

use vstd::prelude::*;

verus! {

/// A type as written in a declaration.
#[derive(Debug, PartialEq, Eq)]
pub enum TypeExpr {
    /// A path such as `u32`, `Vec<T>` or `::std::string::String`.
    Path {
        /// The qualified self type of a path like `<T as Trait>::Out`.
        qself: Option<QSelf>,
        /// Whether the path starts with `::`.
        leading_colon: bool,
        /// The segments between the `::` separators, in order.
        segments: Vec<PathSegment>,
    },
    /// Any other form of type (a reference, a tuple, an array, ...), as written.
    Verbatim(String),
}

/// The qualified self type of a path: the `T` of `<T as Trait>::Out`.
#[derive(Debug, PartialEq, Eq)]
pub struct QSelf {
    /// The self type, as written.
    pub ty: String,
    /// How many segments of the path, counted from its start, name the trait.
    pub position: usize,
}

/// One segment of a path, with its generic arguments.
#[derive(Debug, PartialEq, Eq)]
pub struct PathSegment {
    /// The segment's name.
    pub ident: String,
    /// What follows the name.
    pub arguments: PathArguments,
}

/// The arguments of a path segment.
#[derive(Debug, PartialEq, Eq)]
pub enum PathArguments {
    /// No arguments, as in `String`.
    Bare,
    /// Arguments in angle brackets, as in `Vec<T>`.
    AngleBracketed(Vec<GenericArgument>),
    /// Arguments in round brackets, as in `Fn(A) -> B`, as written.
    Parenthesized(String),
}

/// One argument between angle brackets.
#[derive(Debug, PartialEq, Eq)]
pub enum GenericArgument {
    /// A type.
    Type(TypeExpr),
    /// Anything else (a lifetime, a constant, a binding, ...), as written.
    Verbatim(String),
}

/// The view of a [`TypeExpr`].
pub enum TypeExprView {
    Path { qself: Option<QSelfView>, leading_colon: bool, segments: Seq<PathSegmentView> },
    Verbatim(Seq<char>),
}

/// The view of a [`QSelf`].
pub struct QSelfView {
    pub ty: Seq<char>,
    pub position: usize,
}

impl View for QSelf {
    type V = QSelfView;

    open spec fn view(&self) -> QSelfView {
        QSelfView { ty: self.ty@, position: self.position }
    }
}

impl DeepView for QSelf {
    type V = QSelfView;

    open spec fn deep_view(&self) -> QSelfView {
        self@
    }
}

impl Clone for QSelf {
    fn clone(&self) -> (copy: QSelf)
        ensures
            copy@ == self@,
    {
        QSelf { ty: self.ty.clone(), position: self.position }
    }
}

/// The view of a [`PathSegment`].
pub struct PathSegmentView {
    pub ident: Seq<char>,
    pub arguments: PathArgumentsView,
}

/// The view of a [`PathArguments`].
pub enum PathArgumentsView {
    Bare,
    AngleBracketed(Seq<GenericArgumentView>),
    Parenthesized(Seq<char>),
}

/// The view of a [`GenericArgument`].
pub enum GenericArgumentView {
    Type(TypeExprView),
    Verbatim(Seq<char>),
}

impl View for TypeExpr {
    type V = TypeExprView;

    open spec fn view(&self) -> TypeExprView
        decreases self,
    {
        match self {
            TypeExpr::Path { qself, leading_colon, segments } => TypeExprView::Path {
                qself: qself.deep_view(),
                leading_colon: *leading_colon,
                segments: Seq::new(
                    segments.len() as nat,
                    |i: int|
                        if 0 <= i < segments.len() {
                            segments[i]@
                        } else {
                            arbitrary()
                        },
                ),
            },
            TypeExpr::Verbatim(text) => TypeExprView::Verbatim(text@),
        }
    }
}

impl View for PathSegment {
    type V = PathSegmentView;

    open spec fn view(&self) -> PathSegmentView
        decreases self,
    {
        PathSegmentView { ident: self.ident@, arguments: self.arguments@ }
    }
}

impl View for PathArguments {
    type V = PathArgumentsView;

    open spec fn view(&self) -> PathArgumentsView
        decreases self,
    {
        match self {
            PathArguments::Bare => PathArgumentsView::Bare,
            PathArguments::AngleBracketed(args) => PathArgumentsView::AngleBracketed(
                Seq::new(
                    args.len() as nat,
                    |i: int|
                        if 0 <= i < args.len() {
                            args[i]@
                        } else {
                            arbitrary()
                        },
                ),
            ),
            PathArguments::Parenthesized(text) => PathArgumentsView::Parenthesized(text@),
        }
    }
}

impl View for GenericArgument {
    type V = GenericArgumentView;

    open spec fn view(&self) -> GenericArgumentView
        decreases self,
    {
        match self {
            GenericArgument::Type(ty) => GenericArgumentView::Type(ty@),
            GenericArgument::Verbatim(text) => GenericArgumentView::Verbatim(text@),
        }
    }
}

impl DeepView for TypeExpr {
    type V = TypeExprView;

    open spec fn deep_view(&self) -> TypeExprView {
        self@
    }
}

impl DeepView for PathSegment {
    type V = PathSegmentView;

    open spec fn deep_view(&self) -> PathSegmentView {
        self@
    }
}

impl DeepView for GenericArgument {
    type V = GenericArgumentView;

    open spec fn deep_view(&self) -> GenericArgumentView {
        self@
    }
}

impl TypeExprView {
    /// The path that is the single name `name`.
    pub open spec fn ident(name: Seq<char>) -> TypeExprView {
        TypeExprView::Path {
            qself: None,
            leading_colon: false,
            segments: seq![PathSegmentView { ident: name, arguments: PathArgumentsView::Bare }],
        }
    }

    /// Whether this type is a path of exactly one segment, without a leading
    /// `::` and without arguments, whose name is `name`.
    pub open spec fn is_ident(self, name: Seq<char>) -> bool {
        &&& self matches TypeExprView::Path { leading_colon, segments, .. }
        &&& !leading_colon
        &&& segments.len() == 1
        &&& segments[0].arguments is Bare
        &&& segments[0].ident == name
    }
}

impl TypeExpr {
    /// The type that is the single name `name`.
    pub fn ident(name: String) -> (ty: TypeExpr)
        ensures
            ty@ == TypeExprView::ident(name@),
    {
        let mut segments: Vec<PathSegment> = Vec::new();
        segments.push(PathSegment { ident: name, arguments: PathArguments::Bare });
        let ty = TypeExpr::Path { qself: None, leading_colon: false, segments };
        assert(ty@->segments =~= TypeExprView::ident(name@)->segments);
        ty
    }

    /// Tells whether this type is the single name `name`.
    pub fn is_ident(&self, name: &String) -> (yes: bool)
        ensures
            yes == self@.is_ident(name@),
    {
        match self {
            TypeExpr::Path { qself: _, leading_colon, segments } => {
                if *leading_colon || segments.len() != 1 {
                    return false;
                }
                match &segments[0].arguments {
                    PathArguments::Bare => segments[0].ident == *name,
                    _ => false,
                }
            },
            TypeExpr::Verbatim(_) => false,
        }
    }
}

impl Clone for TypeExpr {
    #[verifier::loop_isolation(false)]
    fn clone(&self) -> (copy: TypeExpr)
        ensures
            copy@ == self@,
        decreases self,
    {
        match self {
            TypeExpr::Path { qself, leading_colon, segments } => {
                let mut copied: Vec<PathSegment> = Vec::new();
                let mut i: usize = 0;
                while i < segments.len()
                    invariant
                        i <= segments.len(),
                        copied.len() == i,
                        forall|j: int| 0 <= j < i ==> copied[j]@ == segments[j]@,
                    decreases segments.len() - i,
                {
                    copied.push(segments[i].clone());
                    i += 1;
                }
                let qself = match qself {
                    Some(own) => Some(own.clone()),
                    None => None,
                };
                let copy = TypeExpr::Path { qself, leading_colon: *leading_colon, segments: copied };
                assert(copy@->segments =~= self@->segments);
                copy
            },
            TypeExpr::Verbatim(text) => TypeExpr::Verbatim(text.clone()),
        }
    }
}

impl Clone for PathSegment {
    fn clone(&self) -> (copy: PathSegment)
        ensures
            copy@ == self@,
        decreases self,
    {
        PathSegment { ident: self.ident.clone(), arguments: self.arguments.clone() }
    }
}

impl Clone for PathArguments {
    #[verifier::loop_isolation(false)]
    fn clone(&self) -> (copy: PathArguments)
        ensures
            copy@ == self@,
        decreases self,
    {
        match self {
            PathArguments::Bare => PathArguments::Bare,
            PathArguments::AngleBracketed(args) => {
                let mut copied: Vec<GenericArgument> = Vec::new();
                let mut i: usize = 0;
                while i < args.len()
                    invariant
                        i <= args.len(),
                        copied.len() == i,
                        forall|j: int| 0 <= j < i ==> copied[j]@ == args[j]@,
                    decreases args.len() - i,
                {
                    copied.push(args[i].clone());
                    i += 1;
                }
                let copy = PathArguments::AngleBracketed(copied);
                assert(copy@->AngleBracketed_0 =~= self@->AngleBracketed_0);
                copy
            },
            PathArguments::Parenthesized(text) => PathArguments::Parenthesized(text.clone()),
        }
    }
}

impl Clone for GenericArgument {
    fn clone(&self) -> (copy: GenericArgument)
        ensures
            copy@ == self@,
        decreases self,
    {
        match self {
            GenericArgument::Type(ty) => GenericArgument::Type(ty.clone()),
            GenericArgument::Verbatim(text) => GenericArgument::Verbatim(text.clone()),
        }
    }
}

/// What a generic parameter stands for.
#[derive(Debug, Clone, Copy, PartialEq, Eq, Structural)]
pub enum ParamKind {
    /// A lifetime, such as `'a`.
    Lifetime,
    /// A type, such as `T`.
    Type,
    /// A constant, such as `const N: usize`.
    Const,
}

/// One generic parameter of a declaration.
#[derive(Debug, PartialEq, Eq)]
pub struct GenericParam {
    /// What the parameter stands for.
    pub kind: ParamKind,
    /// Its name; a lifetime's name includes the quote.
    pub ident: String,
}

/// The generic parameters of a declaration, with its `where` clause.
#[derive(Debug, PartialEq, Eq)]
pub struct Generics {
    /// The parameters, in declaration order.
    pub params: Vec<GenericParam>,
    /// The `where` clause, as written, when there is one.
    pub where_clause: Option<String>,
}

/// One field of a struct.
#[derive(Debug, PartialEq, Eq)]
pub struct Field {
    /// The field's name; `None` for a field of a tuple struct.
    pub ident: Option<String>,
    /// The field's declared type.
    pub ty: TypeExpr,
}

/// One attribute of a declaration, with its arguments read both ways that
/// the generators ask for.
#[derive(Debug, PartialEq, Eq)]
pub struct Attribute {
    /// The attribute's name, when its path is a single name.
    pub name: Option<String>,
    /// The arguments read as a list of types separated by commas, or the
    /// message that says why they do not read so.
    pub types: Result<Vec<TypeExpr>, String>,
    /// The arguments read as a single name, or the message that says why
    /// they do not read so.
    pub ident: Result<String, String>,
}

/// A struct declaration.
#[derive(Debug, PartialEq, Eq)]
pub struct ItemStruct {
    /// The attributes, in source order.
    pub attrs: Vec<Attribute>,
    /// The struct's name.
    pub ident: String,
    /// The generic parameters and `where` clause.
    pub generics: Generics,
    /// The fields, in declaration order.
    pub fields: Vec<Field>,
}

/// The view of a [`GenericParam`].
pub struct GenericParamView {
    pub kind: ParamKind,
    pub ident: Seq<char>,
}

/// The view of a [`Generics`].
pub struct GenericsView {
    pub params: Seq<GenericParamView>,
    pub where_clause: Option<Seq<char>>,
}

/// The view of a [`Field`].
pub struct FieldView {
    pub ident: Option<Seq<char>>,
    pub ty: TypeExprView,
}

/// The view of an [`Attribute`].
pub struct AttributeView {
    pub name: Option<Seq<char>>,
    pub types: Result<Seq<TypeExprView>, Seq<char>>,
    pub ident: Result<Seq<char>, Seq<char>>,
}

/// The view of an [`ItemStruct`].
pub struct ItemStructView {
    pub attrs: Seq<AttributeView>,
    pub ident: Seq<char>,
    pub generics: GenericsView,
    pub fields: Seq<FieldView>,
}

impl View for GenericParam {
    type V = GenericParamView;

    open spec fn view(&self) -> GenericParamView {
        GenericParamView { kind: self.kind, ident: self.ident@ }
    }
}

impl DeepView for GenericParam {
    type V = GenericParamView;

    open spec fn deep_view(&self) -> GenericParamView {
        self@
    }
}

impl Clone for GenericParam {
    fn clone(&self) -> (copy: GenericParam)
        ensures
            copy@ == self@,
    {
        GenericParam { kind: self.kind, ident: self.ident.clone() }
    }
}

impl View for Generics {
    type V = GenericsView;

    open spec fn view(&self) -> GenericsView {
        GenericsView {
            params: self.params.deep_view(),
            where_clause: self.where_clause.deep_view(),
        }
    }
}

impl View for Field {
    type V = FieldView;

    open spec fn view(&self) -> FieldView {
        FieldView { ident: self.ident.deep_view(), ty: self.ty@ }
    }
}

impl DeepView for Field {
    type V = FieldView;

    open spec fn deep_view(&self) -> FieldView {
        self@
    }
}

impl View for Attribute {
    type V = AttributeView;

    open spec fn view(&self) -> AttributeView {
        AttributeView {
            name: self.name.deep_view(),
            types: match self.types {
                Ok(types) => Ok(types.deep_view()),
                Err(message) => Err(message@),
            },
            ident: match self.ident {
                Ok(ident) => Ok(ident@),
                Err(message) => Err(message@),
            },
        }
    }
}

impl DeepView for Attribute {
    type V = AttributeView;

    open spec fn deep_view(&self) -> AttributeView {
        self@
    }
}

impl View for ItemStruct {
    type V = ItemStructView;

    open spec fn view(&self) -> ItemStructView {
        ItemStructView {
            attrs: self.attrs.deep_view(),
            ident: self.ident@,
            generics: self.generics@,
            fields: self.fields.deep_view(),
        }
    }
}

} // verus!
