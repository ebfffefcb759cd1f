//! Which option stands behind each element of a list of options.

use vstd::prelude::*;
use crate::context::OptionState;
use crate::option_database::{
    command_effect, element_name, initial_options, option_list_elements, RegisteredOption,
};
use crate::options::{
    ArchOption, OptionAliasBlock, OptionAllowContextSet, OptionBraceFormat, OptionCommentHeader,
    OptionCommentIndent, OptionCommentInstruction, OptionCommentStyle, OptionConventionPrinting,
    OptionCurrentAction, OptionDefaultPrototype, OptionErrorReinterpreted,
    OptionErrorTooManyInstructions, OptionErrorUnimplemented, OptionExtraPop, OptionForLoops,
    OptionHideExtensions, OptionIgnoreUnimplemented, OptionInPlaceOps, OptionIndentIncrement,
    OptionInferConstPtr, OptionInline, OptionIntegerFormat, OptionJumpLoad, OptionJumpTableMax,
    OptionMaxInstruction, OptionMaxLineWidth, OptionNamespaceStrategy, OptionNanIgnore,
    OptionNoCastPrinting, OptionNoReturn, OptionNullPrinting, OptionProtoEval, OptionReadOnly,
    OptionSetAction, OptionSetLanguage, OptionSplitDatatypes, OptionToggleRule, OptionWarning,
};

verus! {

/// What the command of an element does from the start.
pub open spec fn command(
    id: u32,
    s: OptionState,
    p1: Seq<char>,
    p2: Seq<char>,
    p3: Seq<char>,
) -> crate::options::OptionEffect {
    command_effect(initial_options(), s, id, p1, p2, p3)
}

/// The commands of the elements from `extrapop` to `inline` are the options of these names, and the
/// elements are called so.
pub proof fn law_commands_extrapop_to_inline(
    s: OptionState,
    p1: Seq<char>,
    p2: Seq<char>,
    p3: Seq<char>,
)
    ensures
        command(187, s, p1, p2, p3) == OptionExtraPop.effect(s, p1, p2, p3),
        OptionExtraPop.option_name() == "extrapop"@,
        element_name(187) == Some("extrapop"@),
        command(151, s, p1, p2, p3) == OptionReadOnly.effect(s, p1, p2, p3),
        OptionReadOnly.option_name() == "readonly"@,
        element_name(151) == Some("readonly"@),
        command(188, s, p1, p2, p3) == OptionIgnoreUnimplemented.effect(s, p1, p2, p3),
        OptionIgnoreUnimplemented.option_name() == "ignoreunimplemented"@,
        element_name(188) == Some("ignoreunimplemented"@),
        command(186, s, p1, p2, p3) == OptionErrorUnimplemented.effect(s, p1, p2, p3),
        OptionErrorUnimplemented.option_name() == "errorunimplemented"@,
        element_name(186) == Some("errorunimplemented"@),
        command(184, s, p1, p2, p3) == OptionErrorReinterpreted.effect(s, p1, p2, p3),
        OptionErrorReinterpreted.option_name() == "errorreinterpreted"@,
        element_name(184) == Some("errorreinterpreted"@),
        command(185, s, p1, p2, p3) == OptionErrorTooManyInstructions.effect(s, p1, p2, p3),
        OptionErrorTooManyInstructions.option_name() == "errortoomanyinstructions"@,
        element_name(185) == Some("errortoomanyinstructions"@),
        command(183, s, p1, p2, p3) == OptionDefaultPrototype.effect(s, p1, p2, p3),
        OptionDefaultPrototype.option_name() == "defaultprototype"@,
        element_name(183) == Some("defaultprototype"@),
        command(190, s, p1, p2, p3) == OptionInferConstPtr.effect(s, p1, p2, p3),
        OptionInferConstPtr.option_name() == "inferconstptr"@,
        element_name(190) == Some("inferconstptr"@),
        command(176, s, p1, p2, p3) == OptionForLoops.effect(s, p1, p2, p3),
        OptionForLoops.option_name() == "analyzeforloops"@,
        element_name(176) == Some("analyzeforloops"@),
        command(191, s, p1, p2, p3) == OptionInline.effect(s, p1, p2, p3),
        OptionInline.option_name() == "inline"@,
        element_name(191) == Some("inline"@),
{
    lemma_element_name(0);
    lemma_element_name(1);
    lemma_element_name(2);
    lemma_element_name(3);
    lemma_element_name(4);
    lemma_element_name(5);
    lemma_element_name(6);
    lemma_element_name(7);
    lemma_element_name(8);
    lemma_element_name(9);
}

/// The commands of the elements from `noreturn` to `commentindent` are the options of
/// these names, and the
/// elements are called so.
pub proof fn law_commands_noreturn_to_commentindent(
    s: OptionState,
    p1: Seq<char>,
    p2: Seq<char>,
    p3: Seq<char>,
)
    ensures
        command(199, s, p1, p2, p3) == OptionNoReturn.effect(s, p1, p2, p3),
        OptionNoReturn.option_name() == "noreturn"@,
        element_name(199) == Some("noreturn"@),
        command(205, s, p1, p2, p3) == OptionProtoEval.effect(s, p1, p2, p3),
        OptionProtoEval.option_name() == "protoeval"@,
        element_name(205) == Some("protoeval"@),
        command(210, s, p1, p2, p3) == OptionWarning.effect(s, p1, p2, p3),
        OptionWarning.option_name() == "warning"@,
        element_name(210) == Some("warning"@),
        command(200, s, p1, p2, p3) == OptionNullPrinting.effect(s, p1, p2, p3),
        OptionNullPrinting.option_name() == "nullprinting"@,
        element_name(200) == Some("nullprinting"@),
        command(192, s, p1, p2, p3) == OptionInPlaceOps.effect(s, p1, p2, p3),
        OptionInPlaceOps.option_name() == "inplaceops"@,
        element_name(192) == Some("inplaceops"@),
        command(181, s, p1, p2, p3) == OptionConventionPrinting.effect(s, p1, p2, p3),
        OptionConventionPrinting.option_name() == "conventionprinting"@,
        element_name(181) == Some("conventionprinting"@),
        command(198, s, p1, p2, p3) == OptionNoCastPrinting.effect(s, p1, p2, p3),
        OptionNoCastPrinting.option_name() == "nocastprinting"@,
        element_name(198) == Some("nocastprinting"@),
        command(196, s, p1, p2, p3) == OptionMaxLineWidth.effect(s, p1, p2, p3),
        OptionMaxLineWidth.option_name() == "maxlinewidth"@,
        element_name(196) == Some("maxlinewidth"@),
        command(189, s, p1, p2, p3) == OptionIndentIncrement.effect(s, p1, p2, p3),
        OptionIndentIncrement.option_name() == "indentincrement"@,
        element_name(189) == Some("indentincrement"@),
        command(178, s, p1, p2, p3) == OptionCommentIndent.effect(s, p1, p2, p3),
        OptionCommentIndent.option_name() == "commentindent"@,
        element_name(178) == Some("commentindent"@),
{
    lemma_element_name(10);
    lemma_element_name(11);
    lemma_element_name(12);
    lemma_element_name(13);
    lemma_element_name(14);
    lemma_element_name(15);
    lemma_element_name(16);
    lemma_element_name(17);
    lemma_element_name(18);
    lemma_element_name(19);
}

/// The commands of the elements from `commentstyle` to `jumptablemax` are the options of
/// these names, and the
/// elements are called so.
pub proof fn law_commands_commentstyle_to_jumptablemax(
    s: OptionState,
    p1: Seq<char>,
    p2: Seq<char>,
    p3: Seq<char>,
)
    ensures
        command(180, s, p1, p2, p3) == OptionCommentStyle.effect(s, p1, p2, p3),
        OptionCommentStyle.option_name() == "commentstyle"@,
        element_name(180) == Some("commentstyle"@),
        command(177, s, p1, p2, p3) == OptionCommentHeader.effect(s, p1, p2, p3),
        OptionCommentHeader.option_name() == "commentheader"@,
        element_name(177) == Some("commentheader"@),
        command(179, s, p1, p2, p3) == OptionCommentInstruction.effect(s, p1, p2, p3),
        OptionCommentInstruction.option_name() == "commentinstruction"@,
        element_name(179) == Some("commentinstruction"@),
        command(193, s, p1, p2, p3) == OptionIntegerFormat.effect(s, p1, p2, p3),
        OptionIntegerFormat.option_name() == "integerformat"@,
        element_name(193) == Some("integerformat"@),
        command(284, s, p1, p2, p3) == OptionBraceFormat.effect(s, p1, p2, p3),
        OptionBraceFormat.option_name() == "braceformat"@,
        element_name(284) == Some("braceformat"@),
        command(182, s, p1, p2, p3) == OptionCurrentAction.effect(s, p1, p2, p3),
        OptionCurrentAction.option_name() == "currentaction"@,
        element_name(182) == Some("currentaction"@),
        command(175, s, p1, p2, p3) == OptionAllowContextSet.effect(s, p1, p2, p3),
        OptionAllowContextSet.option_name() == "allowcontextset"@,
        element_name(175) == Some("allowcontextset"@),
        command(206, s, p1, p2, p3) == OptionSetAction.effect(s, p1, p2, p3),
        OptionSetAction.option_name() == "setaction"@,
        element_name(206) == Some("setaction"@),
        command(207, s, p1, p2, p3) == OptionSetLanguage.effect(s, p1, p2, p3),
        OptionSetLanguage.option_name() == "setlanguage"@,
        element_name(207) == Some("setlanguage"@),
        command(271, s, p1, p2, p3) == OptionJumpTableMax.effect(s, p1, p2, p3),
        OptionJumpTableMax.option_name() == "jumptablemax"@,
        element_name(271) == Some("jumptablemax"@),
{
    lemma_element_name(20);
    lemma_element_name(21);
    lemma_element_name(22);
    lemma_element_name(23);
    lemma_element_name(24);
    lemma_element_name(25);
    lemma_element_name(26);
    lemma_element_name(27);
    lemma_element_name(28);
    lemma_element_name(29);
}

/// The commands of the elements from `jumpload` to `nanignore` are the options of these
/// names, and the
/// elements are called so.
pub proof fn law_commands_jumpload_to_nanignore(
    s: OptionState,
    p1: Seq<char>,
    p2: Seq<char>,
    p3: Seq<char>,
)
    ensures
        command(194, s, p1, p2, p3) == OptionJumpLoad.effect(s, p1, p2, p3),
        OptionJumpLoad.option_name() == "jumpload"@,
        element_name(194) == Some("jumpload"@),
        command(209, s, p1, p2, p3) == OptionToggleRule.effect(s, p1, p2, p3),
        OptionToggleRule.option_name() == "togglerule"@,
        element_name(209) == Some("togglerule"@),
        command(174, s, p1, p2, p3) == OptionAliasBlock.effect(s, p1, p2, p3),
        OptionAliasBlock.option_name() == "aliasblock"@,
        element_name(174) == Some("aliasblock"@),
        command(195, s, p1, p2, p3) == OptionMaxInstruction.effect(s, p1, p2, p3),
        OptionMaxInstruction.option_name() == "maxinstruction"@,
        element_name(195) == Some("maxinstruction"@),
        command(197, s, p1, p2, p3) == OptionNamespaceStrategy.effect(s, p1, p2, p3),
        OptionNamespaceStrategy.option_name() == "namespacestrategy"@,
        element_name(197) == Some("namespacestrategy"@),
        command(270, s, p1, p2, p3) == OptionSplitDatatypes.effect(s, p1, p2, p3),
        OptionSplitDatatypes.option_name() == "splitdatatype"@,
        element_name(270) == Some("splitdatatype"@),
        command(272, s, p1, p2, p3) == OptionNanIgnore.effect(s, p1, p2, p3),
        OptionNanIgnore.option_name() == "nanignore"@,
        element_name(272) == Some("nanignore"@),
{
    lemma_element_name(30);
    lemma_element_name(31);
    lemma_element_name(32);
    lemma_element_name(33);
    lemma_element_name(34);
    lemma_element_name(35);
    lemma_element_name(36);
}

proof fn lemma_element_name(i: int)
    requires
        0 <= i < crate::option_database::OPTION_ELEMENT_COUNT,
    ensures
        element_name(crate::option_database::OPTION_ELEMENTS@[i].1) == Some(
            crate::option_database::OPTION_ELEMENTS@[i].0@,
        ),
{
    crate::option_database::law_initial_options_are_the_elements(i);
}

/// The option on implied extensions does the same by itself and as a registered one; it has a
/// name but no element of its own from the start.
pub proof fn law_hideextensions_can_be_registered(
    s: OptionState,
    p1: Seq<char>,
    p2: Seq<char>,
    p3: Seq<char>,
)
    ensures
        RegisteredOption::HideExtensions.effect(s, p1, p2, p3) == OptionHideExtensions.effect(
            s,
            p1,
            p2,
            p3,
        ),
        RegisteredOption::HideExtensions.option_name() == "hideextensions"@,
        !initial_options().contains_key(4090),
{
}

/// A decoder that was told of the elements knows the list, its parameters and two options by
/// name only, behind the options themselves.
pub proof fn law_frame_elements_are_named()
    ensures
        option_list_elements().len() == 43,
        option_list_elements()[37] == ("optionslist"@, 201u32),
        option_list_elements()[38] == ("param1"@, 202u32),
        option_list_elements()[39] == ("param2"@, 203u32),
        option_list_elements()[40] == ("param3"@, 204u32),
        option_list_elements()[41] == ("structalign"@, 208u32),
        option_list_elements()[42] == ("hideextensions"@, 4090u32),
        forall|i: int|
            0 <= i < 37 ==> element_name((#[trigger] option_list_elements()[i]).1) == Some(
                option_list_elements()[i].0,
            ),
{
    assert forall|i: int| 0 <= i < 37 implies element_name((#[trigger] option_list_elements()[i]).1)
        == Some(option_list_elements()[i].0) by {
        lemma_element_name(i);
    }
}

} // verus!
