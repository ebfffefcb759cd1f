//! The options by element id, and the dispatch of an option command.

use vstd::prelude::*;
use crate::context::{ArchOptionContext, OptionState};
use crate::error::{parse_failure, text_outcome, Failure, KunaError};
use crate::options::{
    OptionAliasBlock, OptionAllowContextSet, OptionBraceFormat, OptionCommentHeader,
    OptionCommentIndent, OptionCommentInstruction, OptionCommentStyle, OptionConventionPrinting,
    OptionCurrentAction, OptionDefaultPrototype, OptionErrorReinterpreted,
    OptionErrorTooManyInstructions, OptionErrorUnimplemented, OptionExtraPop, OptionForLoops,
    OptionHideExtensions, OptionIgnoreUnimplemented, OptionInPlaceOps, OptionIndentIncrement,
    OptionInferConstPtr, OptionInline, OptionIntegerFormat, OptionJumpLoad, OptionJumpTableMax,
    OptionMaxInstruction, OptionMaxLineWidth, OptionNamespaceStrategy, OptionNanIgnore,
    OptionNoCastPrinting, OptionNoReturn, OptionNullPrinting, OptionProtoEval, OptionReadOnly,
    OptionSetAction, OptionSetLanguage, OptionSplitDatatypes, OptionToggleRule, OptionWarning,
    ArchOption, OptionEffect,
};
use vstd::string::*;

verus! {

/// Element id of `<readonly>`.
pub const ELEM_READONLY: u32 = 151;

/// Element id of `<aliasblock>`.
pub const ELEM_ALIASBLOCK: u32 = 174;

/// Element id of `<allowcontextset>`.
pub const ELEM_ALLOWCONTEXTSET: u32 = 175;

/// Element id of `<analyzeforloops>`.
pub const ELEM_ANALYZEFORLOOPS: u32 = 176;

/// Element id of `<commentheader>`.
pub const ELEM_COMMENTHEADER: u32 = 177;

/// Element id of `<commentindent>`.
pub const ELEM_COMMENTINDENT: u32 = 178;

/// Element id of `<commentinstruction>`.
pub const ELEM_COMMENTINSTRUCTION: u32 = 179;

/// Element id of `<commentstyle>`.
pub const ELEM_COMMENTSTYLE: u32 = 180;

/// Element id of `<conventionprinting>`.
pub const ELEM_CONVENTIONPRINTING: u32 = 181;

/// Element id of `<currentaction>`.
pub const ELEM_CURRENTACTION: u32 = 182;

/// Element id of `<defaultprototype>`.
pub const ELEM_DEFAULTPROTOTYPE: u32 = 183;

/// Element id of `<errorreinterpreted>`.
pub const ELEM_ERRORREINTERPRETED: u32 = 184;

/// Element id of `<errortoomanyinstructions>`.
pub const ELEM_ERRORTOOMANYINSTRUCTIONS: u32 = 185;

/// Element id of `<errorunimplemented>`.
pub const ELEM_ERRORUNIMPLEMENTED: u32 = 186;

/// Element id of `<extrapop>`.
pub const ELEM_EXTRAPOP: u32 = 187;

/// Element id of `<ignoreunimplemented>`.
pub const ELEM_IGNOREUNIMPLEMENTED: u32 = 188;

/// Element id of `<indentincrement>`.
pub const ELEM_INDENTINCREMENT: u32 = 189;

/// Element id of `<inferconstptr>`.
pub const ELEM_INFERCONSTPTR: u32 = 190;

/// Element id of `<inline>`.
pub const ELEM_INLINE: u32 = 191;

/// Element id of `<inplaceops>`.
pub const ELEM_INPLACEOPS: u32 = 192;

/// Element id of `<integerformat>`.
pub const ELEM_INTEGERFORMAT: u32 = 193;

/// Element id of `<jumpload>`.
pub const ELEM_JUMPLOAD: u32 = 194;

/// Element id of `<maxinstruction>`.
pub const ELEM_MAXINSTRUCTION: u32 = 195;

/// Element id of `<maxlinewidth>`.
pub const ELEM_MAXLINEWIDTH: u32 = 196;

/// Element id of `<namespacestrategy>`.
pub const ELEM_NAMESPACESTRATEGY: u32 = 197;

/// Element id of `<nocastprinting>`.
pub const ELEM_NOCASTPRINTING: u32 = 198;

/// Element id of `<noreturn>`.
pub const ELEM_NORETURN: u32 = 199;

/// Element id of `<nullprinting>`.
pub const ELEM_NULLPRINTING: u32 = 200;

/// Element id of `<optionslist>`.
pub const ELEM_OPTIONSLIST: u32 = 201;

/// Element id of `<param1>`.
pub const ELEM_PARAM1: u32 = 202;

/// Element id of `<param2>`.
pub const ELEM_PARAM2: u32 = 203;

/// Element id of `<param3>`.
pub const ELEM_PARAM3: u32 = 204;

/// Element id of `<protoeval>`.
pub const ELEM_PROTOEVAL: u32 = 205;

/// Element id of `<setaction>`.
pub const ELEM_SETACTION: u32 = 206;

/// Element id of `<setlanguage>`.
pub const ELEM_SETLANGUAGE: u32 = 207;

/// Element id of `<structalign>`.
pub const ELEM_STRUCTALIGN: u32 = 208;

/// Element id of `<togglerule>`.
pub const ELEM_TOGGLERULE: u32 = 209;

/// Element id of `<warning>`.
pub const ELEM_WARNING: u32 = 210;

/// Element id of `<splitdatatype>`.
pub const ELEM_SPLITDATATYPE: u32 = 270;

/// Element id of `<jumptablemax>`.
pub const ELEM_JUMPTABLEMAX: u32 = 271;

/// Element id of `<nanignore>`.
pub const ELEM_NANIGNORE: u32 = 272;

/// Element id of `<braceformat>`.
pub const ELEM_BRACEFORMAT: u32 = 284;

/// Element id of `<hideextensions>`.
pub const ELEM_HIDEEXTENSIONS: u32 = 4090;

/// The elements of the options that are registered from the start: name and id.
pub const OPTION_ELEMENTS: [(&'static str, u32); 37] = [
    ("extrapop", ELEM_EXTRAPOP),
    ("readonly", ELEM_READONLY),
    ("ignoreunimplemented", ELEM_IGNOREUNIMPLEMENTED),
    ("errorunimplemented", ELEM_ERRORUNIMPLEMENTED),
    ("errorreinterpreted", ELEM_ERRORREINTERPRETED),
    ("errortoomanyinstructions", ELEM_ERRORTOOMANYINSTRUCTIONS),
    ("defaultprototype", ELEM_DEFAULTPROTOTYPE),
    ("inferconstptr", ELEM_INFERCONSTPTR),
    ("analyzeforloops", ELEM_ANALYZEFORLOOPS),
    ("inline", ELEM_INLINE),
    ("noreturn", ELEM_NORETURN),
    ("protoeval", ELEM_PROTOEVAL),
    ("warning", ELEM_WARNING),
    ("nullprinting", ELEM_NULLPRINTING),
    ("inplaceops", ELEM_INPLACEOPS),
    ("conventionprinting", ELEM_CONVENTIONPRINTING),
    ("nocastprinting", ELEM_NOCASTPRINTING),
    ("maxlinewidth", ELEM_MAXLINEWIDTH),
    ("indentincrement", ELEM_INDENTINCREMENT),
    ("commentindent", ELEM_COMMENTINDENT),
    ("commentstyle", ELEM_COMMENTSTYLE),
    ("commentheader", ELEM_COMMENTHEADER),
    ("commentinstruction", ELEM_COMMENTINSTRUCTION),
    ("integerformat", ELEM_INTEGERFORMAT),
    ("braceformat", ELEM_BRACEFORMAT),
    ("currentaction", ELEM_CURRENTACTION),
    ("allowcontextset", ELEM_ALLOWCONTEXTSET),
    ("setaction", ELEM_SETACTION),
    ("setlanguage", ELEM_SETLANGUAGE),
    ("jumptablemax", ELEM_JUMPTABLEMAX),
    ("jumpload", ELEM_JUMPLOAD),
    ("togglerule", ELEM_TOGGLERULE),
    ("aliasblock", ELEM_ALIASBLOCK),
    ("maxinstruction", ELEM_MAXINSTRUCTION),
    ("namespacestrategy", ELEM_NAMESPACESTRATEGY),
    ("splitdatatype", ELEM_SPLITDATATYPE),
    ("nanignore", ELEM_NANIGNORE),
];

/// How many options are registered from the start.
pub const OPTION_ELEMENT_COUNT: usize = 37;

/// The other elements that a list of options can hold: its frame, the parameters, and
/// two options that are known by name only.
pub const FRAME_ELEMENTS: [(&'static str, u32); 6] = [
    ("optionslist", ELEM_OPTIONSLIST),
    ("param1", ELEM_PARAM1),
    ("param2", ELEM_PARAM2),
    ("param3", ELEM_PARAM3),
    ("structalign", ELEM_STRUCTALIGN),
    ("hideextensions", ELEM_HIDEEXTENSIONS),
];

/// An element name and its id.
#[derive(Debug, Clone, Copy)]
pub struct ElementId {
    pub name: &'static str,
    pub id: u32,
}

/// The elements that a decoder can name, in the order of registration.
pub struct IdRegistry {
    pub elements: Vec<ElementId>,
}

/// What contracts say of a list of elements.
pub open spec fn element_views(v: Seq<ElementId>) -> Seq<(Seq<char>, u32)> {
    v.map_values(|e: ElementId| (e.name@, e.id))
}

/// The elements that a list of options can hold.
pub open spec fn option_list_elements() -> Seq<(Seq<char>, u32)> {
    Seq::new(
        OPTION_ELEMENT_COUNT as nat,
        |i: int| (OPTION_ELEMENTS@[i].0@, OPTION_ELEMENTS@[i].1),
    ) + Seq::new(6, |i: int| (FRAME_ELEMENTS@[i].0@, FRAME_ELEMENTS@[i].1))
}

/// Register the elements that a list of options can hold.
pub fn register_option_elements(reg: &mut IdRegistry)
    ensures
        element_views(final(reg).elements@) == element_views(old(reg).elements@)
            + option_list_elements(),
{
    let ghost all = option_list_elements();
    let mut i: usize = 0;
    assert(all.take(0) =~= seq![]);
    assert(element_views(reg.elements@) + all.take(0) =~= element_views(reg.elements@));
    while i < OPTION_ELEMENT_COUNT
        invariant
            i <= OPTION_ELEMENT_COUNT,
            all == option_list_elements(),
            element_views(reg.elements@) == element_views(old(reg).elements@) + all.take(i as int),
        decreases OPTION_ELEMENT_COUNT - i,
    {
        let ghost was = element_views(reg.elements@);
        let e = ElementId { name: OPTION_ELEMENTS[i].0, id: OPTION_ELEMENTS[i].1 };
        reg.elements.push(e);
        assert(element_views(reg.elements@) =~= was.push((e.name@, e.id)));
        assert(element_views(reg.elements@) =~= element_views(old(reg).elements@) + all.take(
            i + 1,
        ));
        i += 1;
    }
    let mut j: usize = 0;
    while j < 6
        invariant
            j <= 6,
            all == option_list_elements(),
            element_views(reg.elements@) == element_views(old(reg).elements@) + all.take(
                OPTION_ELEMENT_COUNT + j,
            ),
        decreases 6 - j,
    {
        let ghost was = element_views(reg.elements@);
        let e = ElementId { name: FRAME_ELEMENTS[j].0, id: FRAME_ELEMENTS[j].1 };
        reg.elements.push(e);
        assert(element_views(reg.elements@) =~= was.push((e.name@, e.id)));
        assert(element_views(reg.elements@) =~= element_views(old(reg).elements@) + all.take(
            OPTION_ELEMENT_COUNT + j + 1,
        ));
        j += 1;
    }
    assert(all.take(OPTION_ELEMENT_COUNT + 6) =~= all);
}

/// The first element, from `i` on, of this id.
pub open spec fn element_from(id: u32, i: int) -> Option<int>
    decreases OPTION_ELEMENT_COUNT - i,
{
    if i < 0 || i >= OPTION_ELEMENT_COUNT {
        None
    } else if OPTION_ELEMENTS@[i].1 == id {
        Some(i)
    } else {
        element_from(id, i + 1)
    }
}

/// The name of the option element of this id.
pub open spec fn element_name(id: u32) -> Option<Seq<char>> {
    match element_from(id, 0) {
        Some(i) => Some(OPTION_ELEMENTS@[i].0@),
        None => None,
    }
}

/// The name of the option element of this id.
pub fn option_element_name(id: u32) -> (r: Option<&'static str>)
    ensures
        match r {
            Some(n) => element_name(id) == Some(n@),
            None => element_name(id) is None,
        },
{
    let mut i: usize = 0;
    while i < OPTION_ELEMENT_COUNT
        invariant
            i <= OPTION_ELEMENT_COUNT,
            element_from(id, 0) == element_from(id, i as int),
        decreases OPTION_ELEMENT_COUNT - i,
    {
        if OPTION_ELEMENTS[i].1 == id {
            return Some(OPTION_ELEMENTS[i].0);
        }
        i += 1;
    }
    None
}

/// One of the options.
#[derive(Debug, Clone, Copy, PartialEq, Eq, Structural)]
pub enum RegisteredOption {
    /// `extrapop`
    ExtraPop,
    /// `readonly`
    ReadOnly,
    /// `ignoreunimplemented`
    IgnoreUnimplemented,
    /// `errorunimplemented`
    ErrorUnimplemented,
    /// `errorreinterpreted`
    ErrorReinterpreted,
    /// `errortoomanyinstructions`
    ErrorTooManyInstructions,
    /// `defaultprototype`
    DefaultPrototype,
    /// `inferconstptr`
    InferConstPtr,
    /// `analyzeforloops`
    ForLoops,
    /// `inline`
    Inline,
    /// `noreturn`
    NoReturn,
    /// `protoeval`
    ProtoEval,
    /// `warning`
    Warning,
    /// `nullprinting`
    NullPrinting,
    /// `inplaceops`
    InPlaceOps,
    /// `conventionprinting`
    ConventionPrinting,
    /// `nocastprinting`
    NoCastPrinting,
    /// `maxlinewidth`
    MaxLineWidth,
    /// `indentincrement`
    IndentIncrement,
    /// `commentindent`
    CommentIndent,
    /// `commentstyle`
    CommentStyle,
    /// `commentheader`
    CommentHeader,
    /// `commentinstruction`
    CommentInstruction,
    /// `integerformat`
    IntegerFormat,
    /// `braceformat`
    BraceFormat,
    /// `currentaction`
    CurrentAction,
    /// `allowcontextset`
    AllowContextSet,
    /// `setaction`
    SetAction,
    /// `setlanguage`
    SetLanguage,
    /// `jumptablemax`
    JumpTableMax,
    /// `jumpload`
    JumpLoad,
    /// `togglerule`
    ToggleRule,
    /// `aliasblock`
    AliasBlock,
    /// `maxinstruction`
    MaxInstruction,
    /// `namespacestrategy`
    NamespaceStrategy,
    /// `splitdatatype`
    SplitDatatypes,
    /// `nanignore`
    NanIgnore,
    /// `hideextensions`
    HideExtensions,
}

impl ArchOption for RegisteredOption {
    open spec fn option_name(&self) -> Seq<char> {
        match *self {
            RegisteredOption::ExtraPop => OptionExtraPop.option_name(),
            RegisteredOption::ReadOnly => OptionReadOnly.option_name(),
            RegisteredOption::IgnoreUnimplemented => OptionIgnoreUnimplemented.option_name(),
            RegisteredOption::ErrorUnimplemented => OptionErrorUnimplemented.option_name(),
            RegisteredOption::ErrorReinterpreted => OptionErrorReinterpreted.option_name(),
            RegisteredOption::ErrorTooManyInstructions => OptionErrorTooManyInstructions.option_name(),
            RegisteredOption::DefaultPrototype => OptionDefaultPrototype.option_name(),
            RegisteredOption::InferConstPtr => OptionInferConstPtr.option_name(),
            RegisteredOption::ForLoops => OptionForLoops.option_name(),
            RegisteredOption::Inline => OptionInline.option_name(),
            RegisteredOption::NoReturn => OptionNoReturn.option_name(),
            RegisteredOption::ProtoEval => OptionProtoEval.option_name(),
            RegisteredOption::Warning => OptionWarning.option_name(),
            RegisteredOption::NullPrinting => OptionNullPrinting.option_name(),
            RegisteredOption::InPlaceOps => OptionInPlaceOps.option_name(),
            RegisteredOption::ConventionPrinting => OptionConventionPrinting.option_name(),
            RegisteredOption::NoCastPrinting => OptionNoCastPrinting.option_name(),
            RegisteredOption::MaxLineWidth => OptionMaxLineWidth.option_name(),
            RegisteredOption::IndentIncrement => OptionIndentIncrement.option_name(),
            RegisteredOption::CommentIndent => OptionCommentIndent.option_name(),
            RegisteredOption::CommentStyle => OptionCommentStyle.option_name(),
            RegisteredOption::CommentHeader => OptionCommentHeader.option_name(),
            RegisteredOption::CommentInstruction => OptionCommentInstruction.option_name(),
            RegisteredOption::IntegerFormat => OptionIntegerFormat.option_name(),
            RegisteredOption::BraceFormat => OptionBraceFormat.option_name(),
            RegisteredOption::CurrentAction => OptionCurrentAction.option_name(),
            RegisteredOption::AllowContextSet => OptionAllowContextSet.option_name(),
            RegisteredOption::SetAction => OptionSetAction.option_name(),
            RegisteredOption::SetLanguage => OptionSetLanguage.option_name(),
            RegisteredOption::JumpTableMax => OptionJumpTableMax.option_name(),
            RegisteredOption::JumpLoad => OptionJumpLoad.option_name(),
            RegisteredOption::ToggleRule => OptionToggleRule.option_name(),
            RegisteredOption::AliasBlock => OptionAliasBlock.option_name(),
            RegisteredOption::MaxInstruction => OptionMaxInstruction.option_name(),
            RegisteredOption::NamespaceStrategy => OptionNamespaceStrategy.option_name(),
            RegisteredOption::SplitDatatypes => OptionSplitDatatypes.option_name(),
            RegisteredOption::NanIgnore => OptionNanIgnore.option_name(),
            RegisteredOption::HideExtensions => OptionHideExtensions.option_name(),
        }
    }

    fn get_name(&self) -> (r: &'static str) {
        match *self {
            RegisteredOption::ExtraPop => OptionExtraPop.get_name(),
            RegisteredOption::ReadOnly => OptionReadOnly.get_name(),
            RegisteredOption::IgnoreUnimplemented => OptionIgnoreUnimplemented.get_name(),
            RegisteredOption::ErrorUnimplemented => OptionErrorUnimplemented.get_name(),
            RegisteredOption::ErrorReinterpreted => OptionErrorReinterpreted.get_name(),
            RegisteredOption::ErrorTooManyInstructions => OptionErrorTooManyInstructions.get_name(),
            RegisteredOption::DefaultPrototype => OptionDefaultPrototype.get_name(),
            RegisteredOption::InferConstPtr => OptionInferConstPtr.get_name(),
            RegisteredOption::ForLoops => OptionForLoops.get_name(),
            RegisteredOption::Inline => OptionInline.get_name(),
            RegisteredOption::NoReturn => OptionNoReturn.get_name(),
            RegisteredOption::ProtoEval => OptionProtoEval.get_name(),
            RegisteredOption::Warning => OptionWarning.get_name(),
            RegisteredOption::NullPrinting => OptionNullPrinting.get_name(),
            RegisteredOption::InPlaceOps => OptionInPlaceOps.get_name(),
            RegisteredOption::ConventionPrinting => OptionConventionPrinting.get_name(),
            RegisteredOption::NoCastPrinting => OptionNoCastPrinting.get_name(),
            RegisteredOption::MaxLineWidth => OptionMaxLineWidth.get_name(),
            RegisteredOption::IndentIncrement => OptionIndentIncrement.get_name(),
            RegisteredOption::CommentIndent => OptionCommentIndent.get_name(),
            RegisteredOption::CommentStyle => OptionCommentStyle.get_name(),
            RegisteredOption::CommentHeader => OptionCommentHeader.get_name(),
            RegisteredOption::CommentInstruction => OptionCommentInstruction.get_name(),
            RegisteredOption::IntegerFormat => OptionIntegerFormat.get_name(),
            RegisteredOption::BraceFormat => OptionBraceFormat.get_name(),
            RegisteredOption::CurrentAction => OptionCurrentAction.get_name(),
            RegisteredOption::AllowContextSet => OptionAllowContextSet.get_name(),
            RegisteredOption::SetAction => OptionSetAction.get_name(),
            RegisteredOption::SetLanguage => OptionSetLanguage.get_name(),
            RegisteredOption::JumpTableMax => OptionJumpTableMax.get_name(),
            RegisteredOption::JumpLoad => OptionJumpLoad.get_name(),
            RegisteredOption::ToggleRule => OptionToggleRule.get_name(),
            RegisteredOption::AliasBlock => OptionAliasBlock.get_name(),
            RegisteredOption::MaxInstruction => OptionMaxInstruction.get_name(),
            RegisteredOption::NamespaceStrategy => OptionNamespaceStrategy.get_name(),
            RegisteredOption::SplitDatatypes => OptionSplitDatatypes.get_name(),
            RegisteredOption::NanIgnore => OptionNanIgnore.get_name(),
            RegisteredOption::HideExtensions => OptionHideExtensions.get_name(),
        }
    }

    open spec fn effect(
        &self,
        s: OptionState,
        p1: Seq<char>,
        p2: Seq<char>,
        p3: Seq<char>,
    ) -> OptionEffect {
        match *self {
            RegisteredOption::ExtraPop => OptionExtraPop.effect(s, p1, p2, p3),
            RegisteredOption::ReadOnly => OptionReadOnly.effect(s, p1, p2, p3),
            RegisteredOption::IgnoreUnimplemented => OptionIgnoreUnimplemented.effect(s, p1, p2, p3),
            RegisteredOption::ErrorUnimplemented => OptionErrorUnimplemented.effect(s, p1, p2, p3),
            RegisteredOption::ErrorReinterpreted => OptionErrorReinterpreted.effect(s, p1, p2, p3),
            RegisteredOption::ErrorTooManyInstructions => OptionErrorTooManyInstructions.effect(s, p1, p2, p3),
            RegisteredOption::DefaultPrototype => OptionDefaultPrototype.effect(s, p1, p2, p3),
            RegisteredOption::InferConstPtr => OptionInferConstPtr.effect(s, p1, p2, p3),
            RegisteredOption::ForLoops => OptionForLoops.effect(s, p1, p2, p3),
            RegisteredOption::Inline => OptionInline.effect(s, p1, p2, p3),
            RegisteredOption::NoReturn => OptionNoReturn.effect(s, p1, p2, p3),
            RegisteredOption::ProtoEval => OptionProtoEval.effect(s, p1, p2, p3),
            RegisteredOption::Warning => OptionWarning.effect(s, p1, p2, p3),
            RegisteredOption::NullPrinting => OptionNullPrinting.effect(s, p1, p2, p3),
            RegisteredOption::InPlaceOps => OptionInPlaceOps.effect(s, p1, p2, p3),
            RegisteredOption::ConventionPrinting => OptionConventionPrinting.effect(s, p1, p2, p3),
            RegisteredOption::NoCastPrinting => OptionNoCastPrinting.effect(s, p1, p2, p3),
            RegisteredOption::MaxLineWidth => OptionMaxLineWidth.effect(s, p1, p2, p3),
            RegisteredOption::IndentIncrement => OptionIndentIncrement.effect(s, p1, p2, p3),
            RegisteredOption::CommentIndent => OptionCommentIndent.effect(s, p1, p2, p3),
            RegisteredOption::CommentStyle => OptionCommentStyle.effect(s, p1, p2, p3),
            RegisteredOption::CommentHeader => OptionCommentHeader.effect(s, p1, p2, p3),
            RegisteredOption::CommentInstruction => OptionCommentInstruction.effect(s, p1, p2, p3),
            RegisteredOption::IntegerFormat => OptionIntegerFormat.effect(s, p1, p2, p3),
            RegisteredOption::BraceFormat => OptionBraceFormat.effect(s, p1, p2, p3),
            RegisteredOption::CurrentAction => OptionCurrentAction.effect(s, p1, p2, p3),
            RegisteredOption::AllowContextSet => OptionAllowContextSet.effect(s, p1, p2, p3),
            RegisteredOption::SetAction => OptionSetAction.effect(s, p1, p2, p3),
            RegisteredOption::SetLanguage => OptionSetLanguage.effect(s, p1, p2, p3),
            RegisteredOption::JumpTableMax => OptionJumpTableMax.effect(s, p1, p2, p3),
            RegisteredOption::JumpLoad => OptionJumpLoad.effect(s, p1, p2, p3),
            RegisteredOption::ToggleRule => OptionToggleRule.effect(s, p1, p2, p3),
            RegisteredOption::AliasBlock => OptionAliasBlock.effect(s, p1, p2, p3),
            RegisteredOption::MaxInstruction => OptionMaxInstruction.effect(s, p1, p2, p3),
            RegisteredOption::NamespaceStrategy => OptionNamespaceStrategy.effect(s, p1, p2, p3),
            RegisteredOption::SplitDatatypes => OptionSplitDatatypes.effect(s, p1, p2, p3),
            RegisteredOption::NanIgnore => OptionNanIgnore.effect(s, p1, p2, p3),
            RegisteredOption::HideExtensions => OptionHideExtensions.effect(s, p1, p2, p3),
        }
    }

    fn apply<C: ArchOptionContext>(&self, glb: &mut C, p1: &str, p2: &str, p3: &str) -> (r: Result<
        String,
        KunaError,
    >) {
        match *self {
            RegisteredOption::ExtraPop => OptionExtraPop.apply(glb, p1, p2, p3),
            RegisteredOption::ReadOnly => OptionReadOnly.apply(glb, p1, p2, p3),
            RegisteredOption::IgnoreUnimplemented => OptionIgnoreUnimplemented.apply(glb, p1, p2, p3),
            RegisteredOption::ErrorUnimplemented => OptionErrorUnimplemented.apply(glb, p1, p2, p3),
            RegisteredOption::ErrorReinterpreted => OptionErrorReinterpreted.apply(glb, p1, p2, p3),
            RegisteredOption::ErrorTooManyInstructions => OptionErrorTooManyInstructions.apply(glb, p1, p2, p3),
            RegisteredOption::DefaultPrototype => OptionDefaultPrototype.apply(glb, p1, p2, p3),
            RegisteredOption::InferConstPtr => OptionInferConstPtr.apply(glb, p1, p2, p3),
            RegisteredOption::ForLoops => OptionForLoops.apply(glb, p1, p2, p3),
            RegisteredOption::Inline => OptionInline.apply(glb, p1, p2, p3),
            RegisteredOption::NoReturn => OptionNoReturn.apply(glb, p1, p2, p3),
            RegisteredOption::ProtoEval => OptionProtoEval.apply(glb, p1, p2, p3),
            RegisteredOption::Warning => OptionWarning.apply(glb, p1, p2, p3),
            RegisteredOption::NullPrinting => OptionNullPrinting.apply(glb, p1, p2, p3),
            RegisteredOption::InPlaceOps => OptionInPlaceOps.apply(glb, p1, p2, p3),
            RegisteredOption::ConventionPrinting => OptionConventionPrinting.apply(glb, p1, p2, p3),
            RegisteredOption::NoCastPrinting => OptionNoCastPrinting.apply(glb, p1, p2, p3),
            RegisteredOption::MaxLineWidth => OptionMaxLineWidth.apply(glb, p1, p2, p3),
            RegisteredOption::IndentIncrement => OptionIndentIncrement.apply(glb, p1, p2, p3),
            RegisteredOption::CommentIndent => OptionCommentIndent.apply(glb, p1, p2, p3),
            RegisteredOption::CommentStyle => OptionCommentStyle.apply(glb, p1, p2, p3),
            RegisteredOption::CommentHeader => OptionCommentHeader.apply(glb, p1, p2, p3),
            RegisteredOption::CommentInstruction => OptionCommentInstruction.apply(glb, p1, p2, p3),
            RegisteredOption::IntegerFormat => OptionIntegerFormat.apply(glb, p1, p2, p3),
            RegisteredOption::BraceFormat => OptionBraceFormat.apply(glb, p1, p2, p3),
            RegisteredOption::CurrentAction => OptionCurrentAction.apply(glb, p1, p2, p3),
            RegisteredOption::AllowContextSet => OptionAllowContextSet.apply(glb, p1, p2, p3),
            RegisteredOption::SetAction => OptionSetAction.apply(glb, p1, p2, p3),
            RegisteredOption::SetLanguage => OptionSetLanguage.apply(glb, p1, p2, p3),
            RegisteredOption::JumpTableMax => OptionJumpTableMax.apply(glb, p1, p2, p3),
            RegisteredOption::JumpLoad => OptionJumpLoad.apply(glb, p1, p2, p3),
            RegisteredOption::ToggleRule => OptionToggleRule.apply(glb, p1, p2, p3),
            RegisteredOption::AliasBlock => OptionAliasBlock.apply(glb, p1, p2, p3),
            RegisteredOption::MaxInstruction => OptionMaxInstruction.apply(glb, p1, p2, p3),
            RegisteredOption::NamespaceStrategy => OptionNamespaceStrategy.apply(glb, p1, p2, p3),
            RegisteredOption::SplitDatatypes => OptionSplitDatatypes.apply(glb, p1, p2, p3),
            RegisteredOption::NanIgnore => OptionNanIgnore.apply(glb, p1, p2, p3),
            RegisteredOption::HideExtensions => OptionHideExtensions.apply(glb, p1, p2, p3),
        }
    }
}

/// The options by element id, the later of two registrations standing.
pub open spec fn option_map(entries: Seq<(u32, RegisteredOption)>) -> Map<u32, RegisteredOption>
    decreases entries.len(),
{
    if entries.len() == 0 {
        Map::empty()
    } else {
        option_map(entries.drop_last()).insert(entries.last().0, entries.last().1)
    }
}

/// The options by element id.
pub struct OptionDatabase {
    entries: Vec<(u32, RegisteredOption)>,
}

impl View for OptionDatabase {
    type V = Map<u32, RegisteredOption>;

    closed spec fn view(&self) -> Map<u32, RegisteredOption> {
        option_map(self.entries@)
    }
}

/// The options that are registered from the start.
pub open spec fn initial_options() -> Map<u32, RegisteredOption> {
    Map::<u32, RegisteredOption>::empty()
        .insert(ELEM_EXTRAPOP, RegisteredOption::ExtraPop)
        .insert(ELEM_READONLY, RegisteredOption::ReadOnly)
        .insert(ELEM_IGNOREUNIMPLEMENTED, RegisteredOption::IgnoreUnimplemented)
        .insert(ELEM_ERRORUNIMPLEMENTED, RegisteredOption::ErrorUnimplemented)
        .insert(ELEM_ERRORREINTERPRETED, RegisteredOption::ErrorReinterpreted)
        .insert(ELEM_ERRORTOOMANYINSTRUCTIONS, RegisteredOption::ErrorTooManyInstructions)
        .insert(ELEM_DEFAULTPROTOTYPE, RegisteredOption::DefaultPrototype)
        .insert(ELEM_INFERCONSTPTR, RegisteredOption::InferConstPtr)
        .insert(ELEM_ANALYZEFORLOOPS, RegisteredOption::ForLoops)
        .insert(ELEM_INLINE, RegisteredOption::Inline)
        .insert(ELEM_NORETURN, RegisteredOption::NoReturn)
        .insert(ELEM_PROTOEVAL, RegisteredOption::ProtoEval)
        .insert(ELEM_WARNING, RegisteredOption::Warning)
        .insert(ELEM_NULLPRINTING, RegisteredOption::NullPrinting)
        .insert(ELEM_INPLACEOPS, RegisteredOption::InPlaceOps)
        .insert(ELEM_CONVENTIONPRINTING, RegisteredOption::ConventionPrinting)
        .insert(ELEM_NOCASTPRINTING, RegisteredOption::NoCastPrinting)
        .insert(ELEM_MAXLINEWIDTH, RegisteredOption::MaxLineWidth)
        .insert(ELEM_INDENTINCREMENT, RegisteredOption::IndentIncrement)
        .insert(ELEM_COMMENTINDENT, RegisteredOption::CommentIndent)
        .insert(ELEM_COMMENTSTYLE, RegisteredOption::CommentStyle)
        .insert(ELEM_COMMENTHEADER, RegisteredOption::CommentHeader)
        .insert(ELEM_COMMENTINSTRUCTION, RegisteredOption::CommentInstruction)
        .insert(ELEM_INTEGERFORMAT, RegisteredOption::IntegerFormat)
        .insert(ELEM_BRACEFORMAT, RegisteredOption::BraceFormat)
        .insert(ELEM_CURRENTACTION, RegisteredOption::CurrentAction)
        .insert(ELEM_ALLOWCONTEXTSET, RegisteredOption::AllowContextSet)
        .insert(ELEM_SETACTION, RegisteredOption::SetAction)
        .insert(ELEM_SETLANGUAGE, RegisteredOption::SetLanguage)
        .insert(ELEM_JUMPTABLEMAX, RegisteredOption::JumpTableMax)
        .insert(ELEM_JUMPLOAD, RegisteredOption::JumpLoad)
        .insert(ELEM_TOGGLERULE, RegisteredOption::ToggleRule)
        .insert(ELEM_ALIASBLOCK, RegisteredOption::AliasBlock)
        .insert(ELEM_MAXINSTRUCTION, RegisteredOption::MaxInstruction)
        .insert(ELEM_NAMESPACESTRATEGY, RegisteredOption::NamespaceStrategy)
        .insert(ELEM_SPLITDATATYPE, RegisteredOption::SplitDatatypes)
        .insert(ELEM_NANIGNORE, RegisteredOption::NanIgnore)
}

/// What an option command comes to; an id without an option is refused.
pub open spec fn command_effect(
    db: Map<u32, RegisteredOption>,
    s: OptionState,
    id: u32,
    p1: Seq<char>,
    p2: Seq<char>,
    p3: Seq<char>,
) -> OptionEffect {
    if db.contains_key(id) {
        db[id].effect(s, p1, p2, p3)
    } else {
        (s, Err(parse_failure("Unknown option"@)))
    }
}

impl OptionDatabase {
    /// The database with every option of [`OPTION_ELEMENTS`].
    pub fn new() -> (r: OptionDatabase)
        ensures
            r@ == initial_options(),
    {
        let mut db = OptionDatabase { entries: Vec::new() };
        db.register_option(ELEM_EXTRAPOP, RegisteredOption::ExtraPop);
        db.register_option(ELEM_READONLY, RegisteredOption::ReadOnly);
        db.register_option(ELEM_IGNOREUNIMPLEMENTED, RegisteredOption::IgnoreUnimplemented);
        db.register_option(ELEM_ERRORUNIMPLEMENTED, RegisteredOption::ErrorUnimplemented);
        db.register_option(ELEM_ERRORREINTERPRETED, RegisteredOption::ErrorReinterpreted);
        db.register_option(ELEM_ERRORTOOMANYINSTRUCTIONS, RegisteredOption::ErrorTooManyInstructions);
        db.register_option(ELEM_DEFAULTPROTOTYPE, RegisteredOption::DefaultPrototype);
        db.register_option(ELEM_INFERCONSTPTR, RegisteredOption::InferConstPtr);
        db.register_option(ELEM_ANALYZEFORLOOPS, RegisteredOption::ForLoops);
        db.register_option(ELEM_INLINE, RegisteredOption::Inline);
        db.register_option(ELEM_NORETURN, RegisteredOption::NoReturn);
        db.register_option(ELEM_PROTOEVAL, RegisteredOption::ProtoEval);
        db.register_option(ELEM_WARNING, RegisteredOption::Warning);
        db.register_option(ELEM_NULLPRINTING, RegisteredOption::NullPrinting);
        db.register_option(ELEM_INPLACEOPS, RegisteredOption::InPlaceOps);
        db.register_option(ELEM_CONVENTIONPRINTING, RegisteredOption::ConventionPrinting);
        db.register_option(ELEM_NOCASTPRINTING, RegisteredOption::NoCastPrinting);
        db.register_option(ELEM_MAXLINEWIDTH, RegisteredOption::MaxLineWidth);
        db.register_option(ELEM_INDENTINCREMENT, RegisteredOption::IndentIncrement);
        db.register_option(ELEM_COMMENTINDENT, RegisteredOption::CommentIndent);
        db.register_option(ELEM_COMMENTSTYLE, RegisteredOption::CommentStyle);
        db.register_option(ELEM_COMMENTHEADER, RegisteredOption::CommentHeader);
        db.register_option(ELEM_COMMENTINSTRUCTION, RegisteredOption::CommentInstruction);
        db.register_option(ELEM_INTEGERFORMAT, RegisteredOption::IntegerFormat);
        db.register_option(ELEM_BRACEFORMAT, RegisteredOption::BraceFormat);
        db.register_option(ELEM_CURRENTACTION, RegisteredOption::CurrentAction);
        db.register_option(ELEM_ALLOWCONTEXTSET, RegisteredOption::AllowContextSet);
        db.register_option(ELEM_SETACTION, RegisteredOption::SetAction);
        db.register_option(ELEM_SETLANGUAGE, RegisteredOption::SetLanguage);
        db.register_option(ELEM_JUMPTABLEMAX, RegisteredOption::JumpTableMax);
        db.register_option(ELEM_JUMPLOAD, RegisteredOption::JumpLoad);
        db.register_option(ELEM_TOGGLERULE, RegisteredOption::ToggleRule);
        db.register_option(ELEM_ALIASBLOCK, RegisteredOption::AliasBlock);
        db.register_option(ELEM_MAXINSTRUCTION, RegisteredOption::MaxInstruction);
        db.register_option(ELEM_NAMESPACESTRATEGY, RegisteredOption::NamespaceStrategy);
        db.register_option(ELEM_SPLITDATATYPE, RegisteredOption::SplitDatatypes);
        db.register_option(ELEM_NANIGNORE, RegisteredOption::NanIgnore);
        db
    }

    /// Register an option under an element id; one that was there is replaced.
    pub fn register_option(&mut self, elem: u32, option: RegisteredOption)
        ensures
            final(self)@ == old(self)@.insert(elem, option),
    {
        let ghost was = self.entries@;
        self.entries.push((elem, option));
        assert(self.entries@.drop_last() =~= was);
    }

    fn find(&self, id: u32) -> (r: Option<RegisteredOption>)
        ensures
            match r {
                Some(o) => self@.contains_pair(id, o),
                None => !self@.contains_key(id),
            },
    {
        let mut n: usize = self.entries.len();
        assert(self.entries@.take(n as int) =~= self.entries@);
        while n > 0
            invariant
                n <= self.entries@.len(),
                self@.contains_key(id) == option_map(self.entries@.take(n as int)).contains_key(id),
                self@.contains_key(id) ==> self@[id] == option_map(
                    self.entries@.take(n as int),
                )[id],
            decreases n,
        {
            assert(self.entries@.take(n as int).drop_last() =~= self.entries@.take(n - 1));
            if self.entries[n - 1].0 == id {
                return Some(self.entries[n - 1].1);
            }
            n -= 1;
        }
        None
    }

    /// Apply the option of an element id.
    pub fn set<C: ArchOptionContext>(&self, glb: &mut C, name_id: u32, p1: &str, p2: &str, p3: &str)
        -> (r: Result<String, KunaError>)
        requires
            old(glb).wf(),
        ensures
            final(glb).wf(),
            final(glb).rest() == old(glb).rest(),
            (final(glb).state(), text_outcome(r)) == command_effect(
                self@,
                old(glb).state(),
                name_id,
                p1@,
                p2@,
                p3@,
            ),
    {
        match self.find(name_id) {
            None => Err(KunaError::parse(String::from_str("Unknown option"))),
            Some(option) => option.apply(glb, p1, p2, p3),
        }
    }
}

/// The registered ids are those of [`OPTION_ELEMENTS`], and under each stands the
/// option of the element's name.
pub proof fn law_initial_options_are_the_elements(i: int)
    requires
        0 <= i < OPTION_ELEMENT_COUNT,
    ensures
        initial_options().contains_key(OPTION_ELEMENTS@[i].1),
        initial_options()[OPTION_ELEMENTS@[i].1].option_name() == OPTION_ELEMENTS@[i].0@,
        element_name(OPTION_ELEMENTS@[i].1) == Some(OPTION_ELEMENTS@[i].0@),
{
    lemma_element_from(i, 0);
}

/// Only the ids of [`OPTION_ELEMENTS`] are registered; `hideextensions` is not.
pub proof fn law_no_other_option_is_registered(id: u32)
    requires
        initial_options().contains_key(id),
    ensures
        element_name(id) is Some,
        id != ELEM_HIDEEXTENSIONS,
{
    assert(exists|i: int| 0 <= i < OPTION_ELEMENT_COUNT && #[trigger] OPTION_ELEMENTS@[i].1 == id)
        by {
        assert(OPTION_ELEMENTS@[0].1 == ELEM_EXTRAPOP);
        assert(OPTION_ELEMENTS@[1].1 == ELEM_READONLY);
        assert(OPTION_ELEMENTS@[2].1 == ELEM_IGNOREUNIMPLEMENTED);
        assert(OPTION_ELEMENTS@[3].1 == ELEM_ERRORUNIMPLEMENTED);
        assert(OPTION_ELEMENTS@[4].1 == ELEM_ERRORREINTERPRETED);
        assert(OPTION_ELEMENTS@[5].1 == ELEM_ERRORTOOMANYINSTRUCTIONS);
        assert(OPTION_ELEMENTS@[6].1 == ELEM_DEFAULTPROTOTYPE);
        assert(OPTION_ELEMENTS@[7].1 == ELEM_INFERCONSTPTR);
        assert(OPTION_ELEMENTS@[8].1 == ELEM_ANALYZEFORLOOPS);
        assert(OPTION_ELEMENTS@[9].1 == ELEM_INLINE);
        assert(OPTION_ELEMENTS@[10].1 == ELEM_NORETURN);
        assert(OPTION_ELEMENTS@[11].1 == ELEM_PROTOEVAL);
        assert(OPTION_ELEMENTS@[12].1 == ELEM_WARNING);
        assert(OPTION_ELEMENTS@[13].1 == ELEM_NULLPRINTING);
        assert(OPTION_ELEMENTS@[14].1 == ELEM_INPLACEOPS);
        assert(OPTION_ELEMENTS@[15].1 == ELEM_CONVENTIONPRINTING);
        assert(OPTION_ELEMENTS@[16].1 == ELEM_NOCASTPRINTING);
        assert(OPTION_ELEMENTS@[17].1 == ELEM_MAXLINEWIDTH);
        assert(OPTION_ELEMENTS@[18].1 == ELEM_INDENTINCREMENT);
        assert(OPTION_ELEMENTS@[19].1 == ELEM_COMMENTINDENT);
        assert(OPTION_ELEMENTS@[20].1 == ELEM_COMMENTSTYLE);
        assert(OPTION_ELEMENTS@[21].1 == ELEM_COMMENTHEADER);
        assert(OPTION_ELEMENTS@[22].1 == ELEM_COMMENTINSTRUCTION);
        assert(OPTION_ELEMENTS@[23].1 == ELEM_INTEGERFORMAT);
        assert(OPTION_ELEMENTS@[24].1 == ELEM_BRACEFORMAT);
        assert(OPTION_ELEMENTS@[25].1 == ELEM_CURRENTACTION);
        assert(OPTION_ELEMENTS@[26].1 == ELEM_ALLOWCONTEXTSET);
        assert(OPTION_ELEMENTS@[27].1 == ELEM_SETACTION);
        assert(OPTION_ELEMENTS@[28].1 == ELEM_SETLANGUAGE);
        assert(OPTION_ELEMENTS@[29].1 == ELEM_JUMPTABLEMAX);
        assert(OPTION_ELEMENTS@[30].1 == ELEM_JUMPLOAD);
        assert(OPTION_ELEMENTS@[31].1 == ELEM_TOGGLERULE);
        assert(OPTION_ELEMENTS@[32].1 == ELEM_ALIASBLOCK);
        assert(OPTION_ELEMENTS@[33].1 == ELEM_MAXINSTRUCTION);
        assert(OPTION_ELEMENTS@[34].1 == ELEM_NAMESPACESTRATEGY);
        assert(OPTION_ELEMENTS@[35].1 == ELEM_SPLITDATATYPE);
        assert(OPTION_ELEMENTS@[36].1 == ELEM_NANIGNORE);
    }
    let i = choose|i: int| 0 <= i < OPTION_ELEMENT_COUNT && #[trigger] OPTION_ELEMENTS@[i].1 == id;
    lemma_element_from(i, 0);
}

proof fn lemma_element_from(i: int, from: int)
    requires
        0 <= from <= i < OPTION_ELEMENT_COUNT,
    ensures
        element_from(OPTION_ELEMENTS@[i].1, from) == Some(i),
    decreases i - from,
{
    if from < i {
        lemma_element_from(i, from + 1);
    }
}

/// An unknown id changes nothing and is refused.
pub proof fn law_unknown_option_changes_nothing(
    db: Map<u32, RegisteredOption>,
    s: OptionState,
    id: u32,
    p1: Seq<char>,
    p2: Seq<char>,
    p3: Seq<char>,
)
    requires
        !db.contains_key(id),
    ensures
        command_effect(db, s, id, p1, p2, p3) == (
            s,
            Err::<Seq<char>, Failure>(parse_failure("Unknown option"@)),
        ),
{
}

proof fn lemma_refused_1(
    option: RegisteredOption,
    s: OptionState,
    p1: Seq<char>,
    p2: Seq<char>,
    p3: Seq<char>,
)
    requires
        option is ExtraPop
            || option is ReadOnly
            || option is DefaultPrototype
            || option is InferConstPtr
            || option is ForLoops
            || option is Inline
            || option is NoReturn
            || option is Warning,
        option.effect(s, p1, p2, p3).1 is Err,
    ensures
        option.effect(s, p1, p2, p3).0 == s,
{
}

proof fn lemma_refused_2(
    option: RegisteredOption,
    s: OptionState,
    p1: Seq<char>,
    p2: Seq<char>,
    p3: Seq<char>,
)
    requires
        option is NullPrinting
            || option is InPlaceOps
            || option is ConventionPrinting
            || option is NoCastPrinting
            || option is HideExtensions
            || option is MaxLineWidth
            || option is IndentIncrement
            || option is CommentIndent,
        option.effect(s, p1, p2, p3).1 is Err,
    ensures
        option.effect(s, p1, p2, p3).0 == s,
{
}

proof fn lemma_refused_3(
    option: RegisteredOption,
    s: OptionState,
    p1: Seq<char>,
    p2: Seq<char>,
    p3: Seq<char>,
)
    requires
        option is CommentStyle
            || option is CommentHeader
            || option is CommentInstruction
            || option is IntegerFormat
            || option is BraceFormat
            || option is SetAction
            || option is AllowContextSet
            || option is IgnoreUnimplemented,
        option.effect(s, p1, p2, p3).1 is Err,
    ensures
        option.effect(s, p1, p2, p3).0 == s,
{
}

proof fn lemma_refused_4(
    option: RegisteredOption,
    s: OptionState,
    p1: Seq<char>,
    p2: Seq<char>,
    p3: Seq<char>,
)
    requires
        option is ErrorUnimplemented
            || option is ErrorReinterpreted
            || option is ErrorTooManyInstructions
            || option is JumpLoad
            || option is ProtoEval
            || option is SetLanguage
            || option is JumpTableMax
            || option is ToggleRule,
        option.effect(s, p1, p2, p3).1 is Err,
    ensures
        option.effect(s, p1, p2, p3).0 == s,
{
}

proof fn lemma_refused_5(
    option: RegisteredOption,
    s: OptionState,
    p1: Seq<char>,
    p2: Seq<char>,
    p3: Seq<char>,
)
    requires
        option is AliasBlock
            || option is MaxInstruction
            || option is NamespaceStrategy
            || option is SplitDatatypes
            || option is NanIgnore,
        option.effect(s, p1, p2, p3).1 is Err,
    ensures
        option.effect(s, p1, p2, p3).0 == s,
{
}

/// An option that is refused leaves everything as it was. The one exception is
/// `currentaction`, which makes a group current before it looks at the switch.
pub proof fn law_refused_option_changes_nothing(
    option: RegisteredOption,
    s: OptionState,
    p1: Seq<char>,
    p2: Seq<char>,
    p3: Seq<char>,
)
    requires
        option != RegisteredOption::CurrentAction,
        option.effect(s, p1, p2, p3).1 is Err,
    ensures
        option.effect(s, p1, p2, p3).0 == s,
{
    if option is ExtraPop || option is ReadOnly || option is DefaultPrototype
        || option is InferConstPtr || option is ForLoops || option is Inline
        || option is NoReturn || option is Warning {
        lemma_refused_1(option, s, p1, p2, p3);
    } else if option is NullPrinting || option is InPlaceOps || option is ConventionPrinting
        || option is NoCastPrinting || option is HideExtensions || option is MaxLineWidth
        || option is IndentIncrement || option is CommentIndent {
        lemma_refused_2(option, s, p1, p2, p3);
    } else if option is CommentStyle || option is CommentHeader || option is CommentInstruction
        || option is IntegerFormat || option is BraceFormat || option is SetAction
        || option is AllowContextSet || option is IgnoreUnimplemented {
        lemma_refused_3(option, s, p1, p2, p3);
    } else if option is ErrorUnimplemented || option is ErrorReinterpreted
        || option is ErrorTooManyInstructions || option is JumpLoad || option is ProtoEval
        || option is SetLanguage || option is JumpTableMax || option is ToggleRule {
        lemma_refused_4(option, s, p1, p2, p3);
    } else {
        lemma_refused_5(option, s, p1, p2, p3);
    }
}

/// Registering an option makes it the one of its id and leaves the others.
pub proof fn law_registration_replaces(
    db: Map<u32, RegisteredOption>,
    id: u32,
    option: RegisteredOption,
    other: u32,
)
    ensures
        db.insert(id, option)[id] == option,
        other != id ==> db.insert(id, option).contains_key(other) == db.contains_key(other),
        other != id && db.contains_key(other) ==> db.insert(id, option)[other] == db[other],
{
}

} // verus!
