//! The per-type configuration: which backends an entity is generated for,
//! and which generic parameter stands for the raw id.

use crate::codegen::shape::{
    Attribute, AttributeView, GenericArgument, GenericArgumentView, GenericParam,
    GenericParamView, Generics, GenericsView, ItemStruct, ItemStructView, ParamKind,
    PathArguments, PathArgumentsView, PathSegment, PathSegmentView, TypeExpr, TypeExprView,
};
use vstd::prelude::*;

verus! {

/// The attribute that configures one backend: `storage_noodle_sql(backing_db, raw_id)`.
pub const SQL_ATTR: &'static str = "storage_noodle_sql";

/// The attribute that names the generic parameter standing for the raw id.
pub const RAW_ID_ATTR: &'static str = "storage_noodle_raw_id";

/// The message for a backend attribute without exactly two arguments.
pub const FORMAT_MESSAGE: &'static str = "must be in the format `storage_noodle_sql(backing_db, raw_id)`";

/// The message for a struct without any backend attribute.
pub const MISSING_MESSAGE: &'static str = "there is no `storage_noodle_sql` attribute on this struct";

/// The declaration that a diagnostic points at.
#[derive(Debug, Clone, Copy, PartialEq, Eq, Structural)]
pub enum Site {
    /// The attribute at this position among the struct's attributes.
    Attribute(usize),
    /// The struct as a whole.
    Item,
}

/// A configuration error, to be reported where the struct is declared.
#[derive(Debug, PartialEq, Eq)]
pub struct Diagnostic {
    /// What the report points at.
    pub site: Site,
    /// What it says.
    pub message: String,
}

/// The view of a [`Diagnostic`].
pub struct DiagnosticView {
    pub site: Site,
    pub message: Seq<char>,
}

impl View for Diagnostic {
    type V = DiagnosticView;

    open spec fn view(&self) -> DiagnosticView {
        DiagnosticView { site: self.site, message: self.message@ }
    }
}

impl DeepView for Diagnostic {
    type V = DiagnosticView;

    open spec fn deep_view(&self) -> DiagnosticView {
        self@
    }
}

impl Clone for Diagnostic {
    fn clone(&self) -> (copy: Diagnostic)
        ensures
            copy@ == self@,
    {
        Diagnostic { site: self.site, message: self.message.clone() }
    }
}

/// The arguments of one `storage_noodle_sql` attribute.
#[derive(Debug, PartialEq, Eq)]
pub struct SqlAttr {
    /// The database type of the backend.
    pub backing_db: TypeExpr,
    /// The raw id type of the backend.
    pub raw_id: TypeExpr,
}

/// The view of a [`SqlAttr`].
pub struct SqlAttrView {
    pub backing_db: TypeExprView,
    pub raw_id: TypeExprView,
}

impl View for SqlAttr {
    type V = SqlAttrView;

    open spec fn view(&self) -> SqlAttrView {
        SqlAttrView { backing_db: self.backing_db@, raw_id: self.raw_id@ }
    }
}

impl DeepView for SqlAttr {
    type V = SqlAttrView;

    open spec fn deep_view(&self) -> SqlAttrView {
        self@
    }
}

/// What one attribute configures: a backend, nothing (it is some other
/// attribute), or an error with its message.
pub open spec fn sql_attr_of(attr: AttributeView) -> Result<Option<SqlAttrView>, Seq<char>> {
    if attr.name == Some(SQL_ATTR@) {
        match attr.types {
            Ok(types) => if types.len() == 2 {
                Ok(Some(SqlAttrView { backing_db: types[0], raw_id: types[1] }))
            } else {
                Err(FORMAT_MESSAGE@)
            },
            Err(message) => Err(message),
        }
    } else {
        Ok(None)
    }
}

/// The errors among `attrs`, each pointing at its attribute, in source order.
pub open spec fn config_errors(attrs: Seq<AttributeView>) -> Seq<DiagnosticView>
    decreases attrs.len(),
{
    if attrs.len() == 0 {
        Seq::empty()
    } else {
        let earlier = config_errors(attrs.drop_last());
        match sql_attr_of(attrs.last()) {
            Err(message) => earlier.push(
                DiagnosticView { site: Site::Attribute((attrs.len() - 1) as usize), message },
            ),
            Ok(_) => earlier,
        }
    }
}

/// The backends that `attrs` configure, in source order.
pub open spec fn sql_attrs(attrs: Seq<AttributeView>) -> Seq<SqlAttrView>
    decreases attrs.len(),
{
    if attrs.len() == 0 {
        Seq::empty()
    } else {
        let earlier = sql_attrs(attrs.drop_last());
        match sql_attr_of(attrs.last()) {
            Ok(Some(attr)) => earlier.push(attr),
            _ => earlier,
        }
    }
}

/// The configuration of a struct: every error when there is one, else an
/// error for a struct that configures no backend, else the backends.
pub open spec fn configuration(item: ItemStructView) -> Result<Seq<SqlAttrView>, Seq<DiagnosticView>> {
    if config_errors(item.attrs).len() > 0 {
        Err(config_errors(item.attrs))
    } else if sql_attrs(item.attrs).len() == 0 {
        Err(seq![DiagnosticView { site: Site::Item, message: MISSING_MESSAGE@ }])
    } else {
        Ok(sql_attrs(item.attrs))
    }
}

/// No error is dropped: every malformed attribute has its diagnostic among
/// the errors, pointing at it and carrying its message.
pub proof fn law_every_error_is_collected(attrs: Seq<AttributeView>, at: int)
    requires
        attrs.len() <= usize::MAX,
        0 <= at < attrs.len(),
        sql_attr_of(attrs[at]) is Err,
    ensures
        config_errors(attrs).contains(
            DiagnosticView {
                site: Site::Attribute(at as usize),
                message: sql_attr_of(attrs[at])->Err_0,
            },
        ),
    decreases attrs.len(),
{
    let earlier = config_errors(attrs.drop_last());
    if at == attrs.len() - 1 {
        assert(config_errors(attrs).last() == (DiagnosticView {
            site: Site::Attribute(at as usize),
            message: sql_attr_of(attrs[at])->Err_0,
        }));
    } else {
        law_every_error_is_collected(attrs.drop_last(), at);
        let found = choose|k: int|
            0 <= k < earlier.len() && earlier[k] == (DiagnosticView {
                site: Site::Attribute(at as usize),
                message: sql_attr_of(attrs[at])->Err_0,
            });
        assert(config_errors(attrs)[found] == earlier[found]);
    }
}

/// A struct is configured exactly when none of its attributes is malformed
/// and at least one of them configures a backend.
pub proof fn law_configured_iff_sound(item: ItemStructView)
    ensures
        configuration(item) is Ok <==> config_errors(item.attrs).len() == 0 && sql_attrs(
            item.attrs,
        ).len() > 0,
        configuration(item) matches Ok(attrs) ==> attrs == sql_attrs(item.attrs),
        configuration(item) matches Err(errors) ==> errors.len() > 0,
{
}

/// The view of what [`SqlAttr::from_attribute`] returns.
pub open spec fn attribute_outcome(r: Result<Option<SqlAttr>, String>) -> Result<
    Option<SqlAttrView>,
    Seq<char>,
> {
    match r {
        Ok(Some(attr)) => Ok(Some(attr@)),
        Ok(None) => Ok(None),
        Err(message) => Err(message@),
    }
}

/// The view of what [`SqlAttr::from_item`] returns.
pub open spec fn item_outcome(r: Result<Vec<SqlAttr>, Vec<Diagnostic>>) -> Result<
    Seq<SqlAttrView>,
    Seq<DiagnosticView>,
> {
    match r {
        Ok(attrs) => Ok(attrs.deep_view()),
        Err(errors) => Err(errors.deep_view()),
    }
}

/// What a `storage_noodle_raw_id` attribute at position `at` names: the one
/// name in it, or the error of reading it, pointing at the attribute.
pub open spec fn raw_id_reading(attr: AttributeView, at: nat) -> Result<Seq<char>, DiagnosticView> {
    match attr.ident {
        Ok(ident) => Ok(ident),
        Err(message) => Err(DiagnosticView { site: Site::Attribute(at as usize), message }),
    }
}

/// What the first `storage_noodle_raw_id` attribute at or after `from` names,
/// or the error of reading it; `None` when there is no such attribute.
pub open spec fn raw_id_from(attrs: Seq<AttributeView>, from: nat) -> Option<
    Result<Seq<char>, DiagnosticView>,
>
    decreases attrs.len() - from,
{
    if from >= attrs.len() {
        None
    } else if attrs[from as int].name == Some(RAW_ID_ATTR@) {
        Some(raw_id_reading(attrs[from as int], from))
    } else {
        raw_id_from(attrs, from + 1)
    }
}

/// Attributes of other names are passed over: where none of the attributes
/// from `from` up to `first` is a raw id attribute, reading from `from` is
/// reading from `first`.
proof fn lemma_raw_id_skips(attrs: Seq<AttributeView>, from: nat, first: nat)
    requires
        from <= first <= attrs.len(),
        forall|j: int| from <= j < first ==> (#[trigger] attrs[j]).name != Some(RAW_ID_ATTR@),
    ensures
        raw_id_from(attrs, from) == raw_id_from(attrs, first),
    decreases first - from,
{
    if from < first {
        lemma_raw_id_skips(attrs, from + 1, first);
    }
}

/// The raw id attribute of a struct is the first attribute of that name:
/// where `first` is the position of the first one, it and no later one is
/// read, and where there is none, nothing is read.
pub proof fn law_first_raw_id_attr_counts(attrs: Seq<AttributeView>, first: nat)
    requires
        first <= attrs.len(),
        forall|j: int| 0 <= j < first ==> (#[trigger] attrs[j]).name != Some(RAW_ID_ATTR@),
        first < attrs.len() ==> attrs[first as int].name == Some(RAW_ID_ATTR@),
    ensures
        first < attrs.len() ==> raw_id_from(attrs, 0) == Some(
            raw_id_reading(attrs[first as int], first),
        ),
        first == attrs.len() ==> raw_id_from(attrs, 0) is None,
{
    lemma_raw_id_skips(attrs, 0, first);
}

/// The view of what [`raw_id_attr`] returns.
pub open spec fn raw_id_outcome(r: Option<Result<String, Diagnostic>>) -> Option<
    Result<Seq<char>, DiagnosticView>,
> {
    match r {
        Some(Ok(ident)) => Some(Ok(ident@)),
        Some(Err(error)) => Some(Err(error@)),
        None => None,
    }
}

/// Tells whether `attr` is named `name`.
fn is_named(attr: &Attribute, name: &str) -> (yes: bool)
    ensures
        yes == (attr@.name == Some(name@)),
{
    match &attr.name {
        Some(own) => {
            let wanted = String::from_str(name);
            *own == wanted
        },
        None => false,
    }
}

impl SqlAttr {
    /// Reads one attribute.
    ///
    /// Gives the backend that a `storage_noodle_sql` attribute with exactly
    /// two type arguments configures, `None` for any other attribute, and
    /// an error message for a `storage_noodle_sql` attribute whose arguments
    /// are not a list of types or are not two.
    pub fn from_attribute(attr: &Attribute) -> (r: Result<Option<SqlAttr>, String>)
        ensures
            attribute_outcome(r) == sql_attr_of(attr@),
    {
        if is_named(attr, SQL_ATTR) {
            match &attr.types {
                Ok(types) => {
                    if types.len() == 2 {
                        Ok(
                            Some(
                                SqlAttr {
                                    backing_db: types[0].clone(),
                                    raw_id: types[1].clone(),
                                },
                            ),
                        )
                    } else {
                        Err(String::from_str(FORMAT_MESSAGE))
                    }
                },
                Err(message) => Err(message.clone()),
            }
        } else {
            Ok(None)
        }
    }

    /// Reads the configuration of a struct from its attributes.
    ///
    /// All errors are collected before any is reported: when some attribute
    /// is malformed, the result holds one diagnostic for each malformed
    /// attribute, in source order. A struct without any backend attribute is
    /// an error of its own.
    pub fn from_item(item: &ItemStruct) -> (r: Result<Vec<SqlAttr>, Vec<Diagnostic>>)
        ensures
            item_outcome(r) == configuration(item@),
    {
        let mut attrs: Vec<SqlAttr> = Vec::new();
        let mut errors: Vec<Diagnostic> = Vec::new();
        let mut i: usize = 0;
        while i < item.attrs.len()
            invariant
                i <= item.attrs.len(),
                attrs.deep_view() == sql_attrs(item@.attrs.take(i as int)),
                errors.deep_view() == config_errors(item@.attrs.take(i as int)),
            decreases item.attrs.len() - i,
        {
            assert(item@.attrs.take(i + 1).drop_last() =~= item@.attrs.take(i as int));
            match SqlAttr::from_attribute(&item.attrs[i]) {
                Ok(Some(attr)) => {
                    attrs.push(attr);
                },
                Ok(None) => {},
                Err(message) => {
                    let error = Diagnostic { site: Site::Attribute(i), message };
                    errors.push(error);
                },
            }
            i += 1;
        }
        assert(item@.attrs.take(item.attrs.len() as int) =~= item@.attrs);
        if errors.len() > 0 {
            Err(errors)
        } else if attrs.len() == 0 {
            let mut errors: Vec<Diagnostic> = Vec::new();
            let error = Diagnostic { site: Site::Item, message: String::from_str(MISSING_MESSAGE) };
            errors.push(error);
            assert(errors.deep_view() =~= seq![error@]);
            Err(errors)
        } else {
            Ok(attrs)
        }
    }
}

/// Finds the generic parameter that stands for the raw id.
///
/// Reads the first `storage_noodle_raw_id` attribute of the struct: gives the
/// name in it, or a diagnostic pointing at it when its argument is not one
/// name. Gives `None` for a struct without such an attribute.
pub fn raw_id_attr(item: &ItemStruct) -> (r: Option<Result<String, Diagnostic>>)
    ensures
        raw_id_outcome(r) == raw_id_from(item@.attrs, 0),
{
    let mut i: usize = 0;
    while i < item.attrs.len()
        invariant
            i <= item.attrs.len(),
            raw_id_from(item@.attrs, 0) == raw_id_from(item@.attrs, i as nat),
        decreases item.attrs.len() - i,
    {
        if is_named(&item.attrs[i], RAW_ID_ATTR) {
            return Some(
                match &item.attrs[i].ident {
                    Ok(ident) => Ok(ident.clone()),
                    Err(message) => Err(
                        Diagnostic { site: Site::Attribute(i), message: message.clone() },
                    ),
                },
            );
        }
        i += 1;
    }
    None
}

/// The generics of a generated impl, split as an impl header needs them.
#[derive(Debug, PartialEq, Eq)]
pub struct SplitGenerics {
    /// The parameters that the impl declares, in declaration order.
    pub impl_generics: Vec<GenericParam>,
    /// The arguments that the impl hands to the type, one for each
    /// parameter of the type, in declaration order.
    pub type_generics: Vec<GenericArgument>,
    /// The `where` clause of the impl.
    pub where_clause: Option<String>,
}

/// The view of a [`SplitGenerics`].
pub struct SplitGenericsView {
    pub impl_generics: Seq<GenericParamView>,
    pub type_generics: Seq<GenericArgumentView>,
    pub where_clause: Option<Seq<char>>,
}

impl View for SplitGenerics {
    type V = SplitGenericsView;

    open spec fn view(&self) -> SplitGenericsView {
        SplitGenericsView {
            impl_generics: self.impl_generics.deep_view(),
            type_generics: self.type_generics.deep_view(),
            where_clause: self.where_clause.deep_view(),
        }
    }
}

/// Whether `param` is a type parameter that `to_replace` names.
pub open spec fn is_replaced(param: GenericParamView, to_replace: Seq<Seq<char>>) -> bool {
    param.kind is Type && to_replace.contains(param.ident)
}

/// What the impl hands to the type in the place of `param`: the concrete
/// type for a replaced parameter, the parameter itself for any other.
pub open spec fn type_argument(
    param: GenericParamView,
    to_replace: Seq<Seq<char>>,
    concrete: TypeExprView,
) -> GenericArgumentView {
    if is_replaced(param, to_replace) {
        GenericArgumentView::Type(concrete)
    } else if param.kind is Type {
        GenericArgumentView::Type(TypeExprView::ident(param.ident))
    } else {
        GenericArgumentView::Verbatim(param.ident)
    }
}

/// The generics of an impl in which the parameters that `to_replace` names
/// are fixed to `concrete`: the impl no longer declares them, and hands
/// `concrete` to the type in their place. The `where` clause is kept as it is.
pub open spec fn split_concrete(
    generics: GenericsView,
    to_replace: Seq<Seq<char>>,
    concrete: TypeExprView,
) -> SplitGenericsView {
    SplitGenericsView {
        impl_generics: generics.params.filter(|p: GenericParamView| !is_replaced(p, to_replace)),
        type_generics: generics.params.map_values(
            |p: GenericParamView| type_argument(p, to_replace, concrete),
        ),
        where_clause: generics.where_clause,
    }
}

/// The generics of an impl for `item` over a backend whose raw id type is
/// `raw_id`: with the parameter that the struct marks as its raw id fixed to
/// `raw_id`, or split unchanged when it marks none.
pub open spec fn split_for(item: ItemStructView, raw_id: TypeExprView) -> Result<
    SplitGenericsView,
    DiagnosticView,
> {
    match raw_id_from(item.attrs, 0) {
        Some(Ok(ident)) => Ok(split_concrete(item.generics, seq![ident], raw_id)),
        Some(Err(error)) => Err(error),
        None => Ok(split_concrete(item.generics, Seq::empty(), raw_id)),
    }
}

/// The view of what [`split_generics_with_raw_id_attr`] returns.
pub open spec fn split_outcome(r: Result<SplitGenerics, Diagnostic>) -> Result<
    SplitGenericsView,
    DiagnosticView,
> {
    match r {
        Ok(split) => Ok(split@),
        Err(error) => Err(error@),
    }
}

/// `ty` with every occurrence of the type parameter `replace` replaced by
/// `with`.
///
/// A type that is the single name `replace` becomes `with`. In any other
/// path, the types among the angle-bracketed arguments of each segment are
/// replaced in the same way; the qualified self type is left as written. A
/// type of any other form is left as it is.
pub open spec fn concrete(ty: TypeExprView, replace: Seq<char>, with: TypeExprView) -> TypeExprView
    decreases ty,
{
    match ty {
        TypeExprView::Path { qself, leading_colon, segments } => if ty.is_ident(replace) {
            with
        } else {
            TypeExprView::Path {
                qself,
                leading_colon,
                segments: Seq::new(
                    segments.len(),
                    |i: int|
                        if 0 <= i < segments.len() {
                            concrete_segment(segments[i], replace, with)
                        } else {
                            arbitrary()
                        },
                ),
            }
        },
        TypeExprView::Verbatim(_) => ty,
    }
}

/// A path segment with `replace` replaced by `with` in its type arguments.
pub open spec fn concrete_segment(
    segment: PathSegmentView,
    replace: Seq<char>,
    with: TypeExprView,
) -> PathSegmentView
    decreases segment,
{
    PathSegmentView {
        ident: segment.ident,
        arguments: match segment.arguments {
            PathArgumentsView::AngleBracketed(args) => PathArgumentsView::AngleBracketed(
                Seq::new(
                    args.len(),
                    |i: int|
                        if 0 <= i < args.len() {
                            concrete_argument(args[i], replace, with)
                        } else {
                            arbitrary()
                        },
                ),
            ),
            other => other,
        },
    }
}

/// A generic argument with `replace` replaced by `with` when it is a type.
pub open spec fn concrete_argument(
    arg: GenericArgumentView,
    replace: Seq<char>,
    with: TypeExprView,
) -> GenericArgumentView
    decreases arg,
{
    match arg {
        GenericArgumentView::Type(ty) => GenericArgumentView::Type(concrete(ty, replace, with)),
        other => other,
    }
}

/// Tells whether `names` holds `name`.
fn holds_name(names: &Vec<String>, name: &String) -> (yes: bool)
    ensures
        yes == names.deep_view().contains(name@),
{
    let mut i: usize = 0;
    while i < names.len()
        invariant
            i <= names.len(),
            forall|j: int| 0 <= j < i ==> names.deep_view()[j] != name@,
        decreases names.len() - i,
    {
        if names[i] == *name {
            assert(names.deep_view()[i as int] == name@);
            return true;
        }
        i += 1;
    }
    false
}

/// Tells whether `param` is a type parameter that `to_replace` names.
fn replaces(param: &GenericParam, to_replace: &Vec<String>) -> (yes: bool)
    ensures
        yes == is_replaced(param@, to_replace.deep_view()),
{
    match param.kind {
        ParamKind::Type => holds_name(to_replace, &param.ident),
        _ => false,
    }
}

/// Splits generics for an impl in which some type parameters are fixed.
///
/// The parameters that `to_replace` names are dropped from what the impl
/// declares, and `concrete` stands in their place in what the impl hands to
/// the type. The other parameters are declared and handed on unchanged, and
/// so is the `where` clause.
pub fn split_for_impl_make_concrete(
    generics: &Generics,
    to_replace: &Vec<String>,
    concrete: &TypeExpr,
) -> (split: SplitGenerics)
    ensures
        split@ == split_concrete(generics@, to_replace.deep_view(), concrete@),
{
    let ghost names = to_replace.deep_view();
    let ghost keep = |p: GenericParamView| !is_replaced(p, names);
    let ghost hand = |p: GenericParamView| type_argument(p, names, concrete@);
    let mut impl_generics: Vec<GenericParam> = Vec::new();
    let mut type_generics: Vec<GenericArgument> = Vec::new();
    let mut i: usize = 0;
    proof {
        reveal(Seq::filter);
    }
    while i < generics.params.len()
        invariant
            i <= generics.params.len(),
            names == to_replace.deep_view(),
            keep == |p: GenericParamView| !is_replaced(p, names),
            hand == |p: GenericParamView| type_argument(p, names, concrete@),
            impl_generics.deep_view() == generics@.params.take(i as int).filter(keep),
            type_generics.deep_view() == generics@.params.take(i as int).map_values(hand),
        decreases generics.params.len() - i,
    {
        let param = &generics.params[i];
        let ghost seen = generics@.params.take(i as int);
        proof {
            assert(generics@.params.take(i + 1) =~= seen.push(param@));
            seen.lemma_filter_push(param@, keep);
        }
        if replaces(param, to_replace) {
            type_generics.push(GenericArgument::Type(concrete.clone()));
        } else {
            impl_generics.push(param.clone());
            match param.kind {
                ParamKind::Type => {
                    type_generics.push(GenericArgument::Type(TypeExpr::ident(param.ident.clone())));
                },
                _ => {
                    type_generics.push(GenericArgument::Verbatim(param.ident.clone()));
                },
            }
        }
        assert(seen.push(param@).map_values(hand) =~= seen.map_values(hand).push(hand(param@)));
        i += 1;
    }
    assert(generics@.params.take(generics.params.len() as int) =~= generics@.params);
    let where_clause = match &generics.where_clause {
        Some(clause) => Some(clause.clone()),
        None => None,
    };
    SplitGenerics { impl_generics, type_generics, where_clause }
}

/// Splits the generics of `item` for an impl over a backend whose raw id
/// type is `raw_id`.
///
/// Where the struct names a generic parameter as its raw id, that parameter
/// is fixed to `raw_id`; where it names none, the generics are split
/// unchanged. A malformed `storage_noodle_raw_id` attribute is an error.
pub fn split_generics_with_raw_id_attr(item: &ItemStruct, raw_id: &TypeExpr) -> (r: Result<
    SplitGenerics,
    Diagnostic,
>)
    ensures
        split_outcome(r) == split_for(item@, raw_id@),
{
    let mut to_replace: Vec<String> = Vec::new();
    match raw_id_attr(item) {
        Some(Ok(ident)) => {
            to_replace.push(ident);
            assert(to_replace.deep_view() =~= seq![ident@]);
        },
        Some(Err(error)) => {
            return Err(error);
        },
        None => {
            assert(to_replace.deep_view() =~= Seq::<Seq<char>>::empty());
        },
    }
    Ok(split_for_impl_make_concrete(&item.generics, &to_replace, raw_id))
}

/// Replaces the type parameter `replace` by `with` throughout `ty`.
#[verifier::loop_isolation(false)]
pub fn make_concrete(ty: &TypeExpr, replace: &String, with: &TypeExpr) -> (r: TypeExpr)
    ensures
        r@ == concrete(ty@, replace@, with@),
    decreases ty, 1nat,
{
    match ty {
        TypeExpr::Path { qself, leading_colon, segments } => {
            if ty.is_ident(replace) {
                with.clone()
            } else {
                let mut replaced: Vec<PathSegment> = Vec::new();
                let mut i: usize = 0;
                while i < segments.len()
                    invariant
                        i <= segments.len(),
                        replaced.len() == i,
                        forall|j: int|
                            0 <= j < i ==> replaced[j]@ == concrete_segment(
                                segments[j]@,
                                replace@,
                                with@,
                            ),
                    decreases segments.len() - i,
                {
                    let segment = &segments[i];
                    replaced.push(
                        PathSegment {
                            ident: segment.ident.clone(),
                            arguments: make_concrete_arguments(&segment.arguments, replace, with),
                        },
                    );
                    i += 1;
                }
                let qself = match qself {
                    Some(own) => Some(own.clone()),
                    None => None,
                };
                let r = TypeExpr::Path { qself, leading_colon: *leading_colon, segments: replaced };
                assert(r@->segments =~= concrete(ty@, replace@, with@)->segments);
                r
            }
        },
        TypeExpr::Verbatim(_) => ty.clone(),
    }
}

/// Replaces the type parameter `replace` by `with` in the types among `arguments`.
#[verifier::loop_isolation(false)]
fn make_concrete_arguments(arguments: &PathArguments, replace: &String, with: &TypeExpr) -> (r:
    PathArguments)
    ensures
        r@ == concrete_segment(
            PathSegmentView { ident: Seq::empty(), arguments: arguments@ },
            replace@,
            with@,
        ).arguments,
    decreases arguments, 0nat,
{
    match arguments {
        PathArguments::AngleBracketed(args) => {
            let mut replaced: Vec<GenericArgument> = Vec::new();
            let mut i: usize = 0;
            while i < args.len()
                invariant
                    i <= args.len(),
                    replaced.len() == i,
                    forall|j: int|
                        0 <= j < i ==> replaced[j]@ == concrete_argument(
                            args[j]@,
                            replace@,
                            with@,
                        ),
                decreases args.len() - i,
            {
                let arg = match &args[i] {
                    GenericArgument::Type(inner) => GenericArgument::Type(
                        make_concrete(inner, replace, with),
                    ),
                    other => other.clone(),
                };
                replaced.push(arg);
                i += 1;
            }
            let r = PathArguments::AngleBracketed(replaced);
            assert(r@->AngleBracketed_0 =~= concrete_segment(
                PathSegmentView { ident: Seq::empty(), arguments: arguments@ },
                replace@,
                with@,
            ).arguments->AngleBracketed_0);
            r
        },
        other => other.clone(),
    }
}

/// Whether `out` is something that `func` may return for `item` and the
/// backend `attr`.
pub open spec fn ran_for<P, F: Fn(&ItemStruct, &TypeExpr, &TypeExpr) -> Result<P, Diagnostic>>(
    func: F,
    item: &ItemStruct,
    attr: SqlAttrView,
    out: Result<P, Diagnostic>,
) -> bool {
    exists|backing_db: TypeExpr, raw_id: TypeExpr|
        backing_db@ == attr.backing_db && raw_id@ == attr.raw_id && #[trigger] call_ensures(
            func,
            (item, &backing_db, &raw_id),
            out,
        )
}

/// Runs `func` once for every backend that `item` configures.
///
/// Where the configuration of the struct is in error, the result holds its
/// diagnostics, in order, and `func` is not run. Otherwise it holds, for each
/// configured backend in source order, what `func` returned for the struct,
/// the backend's database type and its raw id type.
pub fn for_each_attr<P, F: Fn(&ItemStruct, &TypeExpr, &TypeExpr) -> Result<P, Diagnostic>>(
    item: &ItemStruct,
    func: F,
) -> (emitted: Vec<Result<P, Diagnostic>>)
    requires
        forall|backing_db: &TypeExpr, raw_id: &TypeExpr|
            call_requires(func, (item, backing_db, raw_id)),
    ensures
        configuration(item@) matches Err(errors) ==> emitted.len() == errors.len() && forall|
            i: int,
        |
            0 <= i < errors.len() ==> (#[trigger] emitted[i] matches Err(error) && error@
                == errors[i]),
        configuration(item@) matches Ok(attrs) ==> emitted.len() == attrs.len() && forall|i: int|
            0 <= i < attrs.len() ==> ran_for(func, item, attrs[i], #[trigger] emitted[i]),
{
    let mut emitted: Vec<Result<P, Diagnostic>> = Vec::new();
    match SqlAttr::from_item(item) {
        Err(errors) => {
            let mut i: usize = 0;
            while i < errors.len()
                invariant
                    i <= errors.len(),
                    emitted.len() == i,
                    forall|j: int|
                        0 <= j < i ==> (#[trigger] emitted[j] matches Err(error) && error@
                            == errors[j]@),
                decreases errors.len() - i,
            {
                emitted.push(Err(errors[i].clone()));
                i += 1;
            }
        },
        Ok(attrs) => {
            let mut i: usize = 0;
            while i < attrs.len()
                invariant
                    i <= attrs.len(),
                    emitted.len() == i,
                    forall|backing_db: &TypeExpr, raw_id: &TypeExpr|
                        call_requires(func, (item, backing_db, raw_id)),
                    forall|j: int|
                        0 <= j < i ==> ran_for(func, item, attrs[j]@, #[trigger] emitted[j]),
                decreases attrs.len() - i,
            {
                let one = func(item, &attrs[i].backing_db, &attrs[i].raw_id);
                emitted.push(one);
                i += 1;
            }
        },
    }
    emitted
}

/// What is generated for `item` when `plan` says what is generated for one
/// backend: the diagnostics of a configuration in error, else what `plan`
/// gives for each configured backend, in source order.
pub open spec fn for_each_configured<V>(
    item: ItemStructView,
    plan: spec_fn(SqlAttrView) -> Result<V, DiagnosticView>,
) -> Seq<Result<V, DiagnosticView>> {
    match configuration(item) {
        Err(errors) => errors.map_values(|e: DiagnosticView| Err::<V, DiagnosticView>(e)),
        Ok(attrs) => attrs.map_values(plan),
    }
}

/// What [`for_each_attr`] returns for a function whose result is fixed by
/// its arguments: where every result of `func` is seen by `outcome` as
/// `plan` of the backend, the whole result is seen as
/// [`for_each_configured`] of `plan`.
pub proof fn lemma_for_each_attr<P, V, F: Fn(&ItemStruct, &TypeExpr, &TypeExpr) -> Result<P, Diagnostic>>(
    func: F,
    item: &ItemStruct,
    emitted: Seq<Result<P, Diagnostic>>,
    outcome: spec_fn(Result<P, Diagnostic>) -> Result<V, DiagnosticView>,
    plan: spec_fn(SqlAttrView) -> Result<V, DiagnosticView>,
)
    requires
        forall|backing_db: &TypeExpr, raw_id: &TypeExpr, r: Result<P, Diagnostic>|
            call_ensures(func, (item, backing_db, raw_id), r) ==> outcome(r) == plan(
                SqlAttrView { backing_db: backing_db@, raw_id: raw_id@ },
            ),
        forall|error: Diagnostic| #[trigger] outcome(Err(error)) == Err::<V, DiagnosticView>(error@),
        configuration(item@) matches Err(errors) ==> emitted.len() == errors.len() && forall|
            i: int,
        |
            0 <= i < errors.len() ==> (#[trigger] emitted[i] matches Err(error) && error@
                == errors[i]),
        configuration(item@) matches Ok(attrs) ==> emitted.len() == attrs.len() && forall|i: int|
            0 <= i < attrs.len() ==> ran_for(func, item, attrs[i], #[trigger] emitted[i]),
    ensures
        emitted.map_values(outcome) == for_each_configured(item@, plan),
{
}

} // verus!
