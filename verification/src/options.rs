//! The options that a list of options can hold, each with what it does.

use vstd::prelude::*;
use vstd::string::*;
use crate::actions::{
    clone_effect, current_name, current_rules, enable_effect, select_effect, toggle_effect,
    warning_effect,
};
use crate::context::{
    function_effect, function_extra_pop_effect, language_known, with_print_settings,
    ArchOptionContext, OptionState,
};
use crate::error::{
    lowlevel_failure, outcome, parse_failure, recov_failure, text_outcome, Failure, KunaError,
};
use crate::int_parse::{i32_of_number, parse_int_auto, signed_field, u32_of_number};
use crate::printer::{
    language_from, with_brace, BraceCategory, BraceStyle, NamespaceStrategy, PrintSettings,
    PrintState,
};
use crate::proto::{default_effect, eval_effect, with_extra_pop, EXTRAPOP_UNKNOWN};
use crate::symbols::FunctionView;
use crate::text::{join2, join3, same_text};
use crate::toggle::{on_or_off, toggle_value};

verus! {

/// Comment type: the first user-defined one.
pub const USER1: u32 = 1;

/// Comment type: the second user-defined one.
pub const USER2: u32 = 2;

/// Comment type: the third user-defined one.
pub const USER3: u32 = 4;

/// Comment type: shown in the function header.
pub const HEADER: u32 = 8;

/// Comment type: a warning.
pub const WARNING: u32 = 16;

/// Comment type: a warning in the function header.
pub const WARNINGHEADER: u32 = 32;

/// Flow bit: an unimplemented instruction does nothing.
pub const IGNORE_UNIMPLEMENTED: u32 = 2;

/// Flow bit: an unimplemented instruction is an error.
pub const ERROR_UNIMPLEMENTED: u32 = 8;

/// Flow bit: an instruction that is read in two ways is an error.
pub const ERROR_REINTERPRETED: u32 = 0x10;

/// Flow bit: too many instructions are an error.
pub const ERROR_TOOMANYINSTRUCTIONS: u32 = 0x20;

/// Flow bit: the loads of a jump table are recorded.
pub const RECORD_JUMPLOADS: u32 = 0x4000;

/// Splitting bit: the fields of a structure.
pub const SPLIT_STRUCT: u32 = 1;

/// Splitting bit: the elements of an array.
pub const SPLIT_ARRAY: u32 = 2;

/// Splitting bit: loads and stores.
pub const SPLIT_POINTER: u32 = 4;

/// The bits with one of them set or cleared.
pub open spec fn with_bit(bits: u32, bit: u32, on: bool) -> u32 {
    if on {
        bits | bit
    } else {
        bits & !bit
    }
}

fn change_bit(bits: u32, bit: u32, on: bool) -> (r: u32)
    ensures
        r == with_bit(bits, bit, on),
{
    if on {
        bits | bit
    } else {
        bits & !bit
    }
}

/// Setting or clearing a bit leaves the other bits, and doing it again changes nothing.
pub proof fn law_one_bit_changes(bits: u32, bit: u32, on: bool, other: u32)
    requires
        bit & other == 0,
    ensures
        with_bit(bits, bit, on) & other == bits & other,
        with_bit(with_bit(bits, bit, on), bit, on) == with_bit(bits, bit, on),
        with_bit(with_bit(bits, bit, !on), bit, on) == with_bit(bits, bit, on),
        with_bit(bits, bit, on) & bit == if on {
            bit
        } else {
            0
        },
{
    assert((bits | bit) & other == bits & other) by (bit_vector)
        requires
            bit & other == 0,
    ;
    assert((bits & !bit) & other == bits & other) by (bit_vector)
        requires
            bit & other == 0,
    ;
    assert(((bits | bit) | bit) == (bits | bit)) by (bit_vector);
    assert(((bits & !bit) & !bit) == (bits & !bit)) by (bit_vector);
    assert(((bits & !bit) | bit) == (bits | bit)) by (bit_vector);
    assert(((bits | bit) & !bit) == (bits & !bit)) by (bit_vector);
    assert((bits | bit) & bit == bit) by (bit_vector);
    assert((bits & !bit) & bit == 0) by (bit_vector);
}

/// `on` or `off`.
pub open spec fn on_off(val: bool) -> Seq<char> {
    if val {
        "on"@
    } else {
        "off"@
    }
}

fn on_off_word(val: bool) -> (r: &'static str)
    ensures
        r@ == on_off(val),
{
    if val {
        "on"
    } else {
        "off"
    }
}

/// `true` or `false`.
pub open spec fn truth(val: bool) -> Seq<char> {
    if val {
        "true"@
    } else {
        "false"@
    }
}

fn truth_word(val: bool) -> (r: &'static str)
    ensures
        r@ == truth(val),
{
    if val {
        "true"
    } else {
        "false"
    }
}

/// The bit of a comment type.
pub open spec fn comment_type(name: Seq<char>) -> Result<u32, Failure> {
    if name == "user1"@ {
        Ok(USER1)
    } else if name == "user2"@ {
        Ok(USER2)
    } else if name == "user3"@ {
        Ok(USER3)
    } else if name == "header"@ {
        Ok(HEADER)
    } else if name == "warning"@ {
        Ok(WARNING)
    } else if name == "warningheader"@ {
        Ok(WARNINGHEADER)
    } else {
        Err(lowlevel_failure("Unknown comment type: "@ + name))
    }
}

/// The bit of a comment type.
pub fn encode_comment_type(name: &str) -> (r: Result<u32, KunaError>)
    ensures
        outcome(r) == comment_type(name@),
{
    if same_text(name, "user1") {
        Ok(USER1)
    } else if same_text(name, "user2") {
        Ok(USER2)
    } else if same_text(name, "user3") {
        Ok(USER3)
    } else if same_text(name, "header") {
        Ok(HEADER)
    } else if same_text(name, "warning") {
        Ok(WARNING)
    } else if same_text(name, "warningheader") {
        Ok(WARNINGHEADER)
    } else {
        Err(KunaError::lowlevel(join2("Unknown comment type: ", name)))
    }
}

/// The signed number that an option value begins with, else `missing`.
pub open spec fn signed_or(p: Seq<char>, missing: i32) -> i32 {
    match signed_field(p) {
        Some((neg, mag)) => i32_of_number(neg, mag),
        None => missing,
    }
}

fn read_signed(p: &str, missing: i32) -> (r: i32)
    ensures
        r == signed_or(p@, missing),
{
    match parse_int_auto::<i32>(p) {
        Some(v) => v,
        None => missing,
    }
}

/// The unsigned number that an option value begins with, else `missing`.
pub open spec fn unsigned_or(p: Seq<char>, missing: u32) -> u32 {
    match signed_field(p) {
        Some((neg, mag)) => u32_of_number(neg, mag),
        None => missing,
    }
}

fn read_unsigned(p: &str, missing: u32) -> (r: u32)
    ensures
        r == unsigned_or(p@, missing),
{
    match parse_int_auto::<u32>(p) {
        Some(v) => v,
        None => missing,
    }
}

/// What an option comes to: the state afterwards and the message or failure.
pub type OptionEffect = (OptionState, Result<Seq<char>, Failure>);

/// An option: a name, and what it does with up to three parameters.
pub trait ArchOption {
    /// What applying the option comes to.
    spec fn effect(
        &self,
        s: OptionState,
        p1: Seq<char>,
        p2: Seq<char>,
        p3: Seq<char>,
    ) -> OptionEffect;

    /// The name of the option.
    spec fn option_name(&self) -> Seq<char>;

    /// The name of the option.
    fn get_name(&self) -> (r: &'static str)
        ensures
            r@ == self.option_name(),
    ;

    /// Apply the option, and say what was done.
    fn apply<C: ArchOptionContext>(&self, glb: &mut C, p1: &str, p2: &str, p3: &str) -> (r: Result<
        String,
        KunaError,
    >)
        requires
            old(glb).wf(),
        ensures
            final(glb).wf(),
            final(glb).rest() == old(glb).rest(),
            (final(glb).state(), text_outcome(r)) == self.effect(
                old(glb).state(),
                p1@,
                p2@,
                p3@,
            ),
    ;
}

/// `extrapop`: how far a call moves the stack pointer, for a function or by default.
#[derive(Debug, Clone, Copy)]
pub struct OptionExtraPop;

impl ArchOption for OptionExtraPop {
    open spec fn option_name(&self) -> Seq<char> {
        "extrapop"@
    }

    fn get_name(&self) -> (r: &'static str) {
        "extrapop"
    }

    open spec fn effect(
        &self,
        s: OptionState,
        p1: Seq<char>,
        p2: Seq<char>,
        p3: Seq<char>,
    ) -> OptionEffect {
        let expop = if p1 == "unknown"@ {
            EXTRAPOP_UNKNOWN
        } else {
            signed_or(p1, (-300) as i32)
        };
        if expop == -300 {
            (s, Err(parse_failure("Bad extrapop adjustment parameter"@)))
        } else if p2.len() > 0 {
            let (after, r) = function_extra_pop_effect(s, p2, expop);
            (
                after,
                match r {
                    Ok(()) => Ok("ExtraPop set for function "@ + p2),
                    Err(e) => Err(e),
                },
            )
        } else {
            (
                OptionState { models: with_extra_pop(s.models, expop), ..s },
                Ok("Global extrapop set"@),
            )
        }
    }

    fn apply<C: ArchOptionContext>(&self, glb: &mut C, p1: &str, p2: &str, p3: &str) -> (r: Result<
        String,
        KunaError,
    >) {
        let expop: i32 = if same_text(p1, "unknown") {
            EXTRAPOP_UNKNOWN
        } else {
            read_signed(p1, -300)
        };
        if expop == -300 {
            return Err(KunaError::parse(String::from_str("Bad extrapop adjustment parameter")));
        }
        if p2.unicode_len() > 0 {
            match glb.set_function_extra_pop(p2, expop) {
                Err(e) => Err(e),
                Ok(()) => Ok(join2("ExtraPop set for function ", p2)),
            }
        } else {
            glb.set_default_extra_pop(expop);
            Ok(String::from_str("Global extrapop set"))
        }
    }
}

/// `readonly`: whether read-only memory is propagated as constants.
#[derive(Debug, Clone, Copy)]
pub struct OptionReadOnly;

impl ArchOption for OptionReadOnly {
    open spec fn option_name(&self) -> Seq<char> {
        "readonly"@
    }

    fn get_name(&self) -> (r: &'static str) {
        "readonly"
    }

    open spec fn effect(
        &self,
        s: OptionState,
        p1: Seq<char>,
        p2: Seq<char>,
        p3: Seq<char>,
    ) -> OptionEffect {
        if p1.len() == 0 {
            (s, Err(parse_failure("Read-only option must be set \"on\" or \"off\""@)))
        } else {
            match toggle_value(p1) {
                Err(e) => (s, Err(e)),
                Ok(val) => (
                    OptionState { readonly_propagate: val, ..s },
                    Ok(
                        if val {
                            "Read-only memory locations now propagate as constants"@
                        } else {
                            "Read-only memory locations now do not propagate"@
                        },
                    ),
                ),
            }
        }
    }

    fn apply<C: ArchOptionContext>(&self, glb: &mut C, p1: &str, p2: &str, p3: &str) -> (r: Result<
        String,
        KunaError,
    >) {
        if p1.unicode_len() == 0 {
            return Err(
                KunaError::parse(
                    String::from_str("Read-only option must be set \"on\" or \"off\""),
                ),
            );
        }
        match on_or_off(p1) {
            Err(e) => Err(e),
            Ok(val) => {
                glb.set_readonly_propagate(val);
                if val {
                    Ok(String::from_str("Read-only memory locations now propagate as constants"))
                } else {
                    Ok(String::from_str("Read-only memory locations now do not propagate"))
                }
            },
        }
    }
}

/// `defaultprototype`: the default prototype model.
#[derive(Debug, Clone, Copy)]
pub struct OptionDefaultPrototype;

impl ArchOption for OptionDefaultPrototype {
    open spec fn option_name(&self) -> Seq<char> {
        "defaultprototype"@
    }

    fn get_name(&self) -> (r: &'static str) {
        "defaultprototype"
    }

    open spec fn effect(
        &self,
        s: OptionState,
        p1: Seq<char>,
        p2: Seq<char>,
        p3: Seq<char>,
    ) -> OptionEffect {
        let (models, r) = default_effect(s.models, p1);
        (
            OptionState { models, ..s },
            match r {
                Ok(()) => Ok("Set default prototype to "@ + p1),
                Err(e) => Err(e),
            },
        )
    }

    fn apply<C: ArchOptionContext>(&self, glb: &mut C, p1: &str, p2: &str, p3: &str) -> (r: Result<
        String,
        KunaError,
    >) {
        match glb.set_default_model(p1) {
            Err(e) => Err(e),
            Ok(()) => Ok(join2("Set default prototype to ", p1)),
        }
    }
}

/// `inferconstptr`: whether constants are taken for pointers.
#[derive(Debug, Clone, Copy)]
pub struct OptionInferConstPtr;

impl ArchOption for OptionInferConstPtr {
    open spec fn option_name(&self) -> Seq<char> {
        "inferconstptr"@
    }

    fn get_name(&self) -> (r: &'static str) {
        "inferconstptr"
    }

    open spec fn effect(
        &self,
        s: OptionState,
        p1: Seq<char>,
        p2: Seq<char>,
        p3: Seq<char>,
    ) -> OptionEffect {
        match toggle_value(p1) {
            Err(e) => (s, Err(e)),
            Ok(val) => (
                OptionState { infer_pointers: val, ..s },
                Ok(
                    if val {
                        "Constant pointers are now inferred"@
                    } else {
                        "Constant pointers must now be set explicitly"@
                    },
                ),
            ),
        }
    }

    fn apply<C: ArchOptionContext>(&self, glb: &mut C, p1: &str, p2: &str, p3: &str) -> (r: Result<
        String,
        KunaError,
    >) {
        match on_or_off(p1) {
            Err(e) => Err(e),
            Ok(val) => {
                glb.set_infer_pointers(val);
                if val {
                    Ok(String::from_str("Constant pointers are now inferred"))
                } else {
                    Ok(String::from_str("Constant pointers must now be set explicitly"))
                }
            },
        }
    }
}

/// `analyzeforloops`: whether `for` loops are recovered.
#[derive(Debug, Clone, Copy)]
pub struct OptionForLoops;

impl ArchOption for OptionForLoops {
    open spec fn option_name(&self) -> Seq<char> {
        "analyzeforloops"@
    }

    fn get_name(&self) -> (r: &'static str) {
        "analyzeforloops"
    }

    open spec fn effect(
        &self,
        s: OptionState,
        p1: Seq<char>,
        p2: Seq<char>,
        p3: Seq<char>,
    ) -> OptionEffect {
        match toggle_value(p1) {
            Err(e) => (s, Err(e)),
            Ok(val) => (
                OptionState { analyze_for_loops: val, ..s },
                Ok("Recovery of for-loops is "@ + p1),
            ),
        }
    }

    fn apply<C: ArchOptionContext>(&self, glb: &mut C, p1: &str, p2: &str, p3: &str) -> (r: Result<
        String,
        KunaError,
    >) {
        match on_or_off(p1) {
            Err(e) => Err(e),
            Ok(val) => {
                glb.set_analyze_for_loops(val);
                Ok(join2("Recovery of for-loops is ", p1))
            },
        }
    }
}

/// `inline`: whether calls of a function are replaced by its body.
#[derive(Debug, Clone, Copy)]
pub struct OptionInline;

impl ArchOption for OptionInline {
    open spec fn option_name(&self) -> Seq<char> {
        "inline"@
    }

    fn get_name(&self) -> (r: &'static str) {
        "inline"
    }

    open spec fn effect(
        &self,
        s: OptionState,
        p1: Seq<char>,
        p2: Seq<char>,
        p3: Seq<char>,
    ) -> OptionEffect {
        let val = p2.len() == 0 || p2 == "true"@;
        let (after, r) = function_effect(
            s,
            p1,
            |f: FunctionView| FunctionView { inline: val, ..f },
        );
        (
            after,
            match r {
                Ok(()) => Ok("Inline property for function "@ + p1 + " = "@ + truth(val)),
                Err(e) => Err(e),
            },
        )
    }

    fn apply<C: ArchOptionContext>(&self, glb: &mut C, p1: &str, p2: &str, p3: &str) -> (r: Result<
        String,
        KunaError,
    >) {
        let val = p2.unicode_len() == 0 || same_text(p2, "true");
        match glb.set_function_inline(p1, val) {
            Err(e) => Err(e),
            Ok(()) => {
                let mut msg = join3("Inline property for function ", p1, " = ");
                msg.append(truth_word(val));
                Ok(msg)
            },
        }
    }
}

/// `noreturn`: whether calls of a function come back.
#[derive(Debug, Clone, Copy)]
pub struct OptionNoReturn;

impl ArchOption for OptionNoReturn {
    open spec fn option_name(&self) -> Seq<char> {
        "noreturn"@
    }

    fn get_name(&self) -> (r: &'static str) {
        "noreturn"
    }

    open spec fn effect(
        &self,
        s: OptionState,
        p1: Seq<char>,
        p2: Seq<char>,
        p3: Seq<char>,
    ) -> OptionEffect {
        let val = p2.len() == 0 || p2 == "true"@;
        let (after, r) = function_effect(
            s,
            p1,
            |f: FunctionView| FunctionView { no_return: val, ..f },
        );
        (
            after,
            match r {
                Ok(()) => Ok("No return property for function "@ + p1 + " = "@ + truth(val)),
                Err(e) => Err(e),
            },
        )
    }

    fn apply<C: ArchOptionContext>(&self, glb: &mut C, p1: &str, p2: &str, p3: &str) -> (r: Result<
        String,
        KunaError,
    >) {
        let val = p2.unicode_len() == 0 || same_text(p2, "true");
        match glb.set_function_no_return(p1, val) {
            Err(e) => Err(e),
            Ok(()) => {
                let mut msg = join3("No return property for function ", p1, " = ");
                msg.append(truth_word(val));
                Ok(msg)
            },
        }
    }
}

/// `warning`: whether an action or rule reports itself.
#[derive(Debug, Clone, Copy)]
pub struct OptionWarning;

impl ArchOption for OptionWarning {
    open spec fn option_name(&self) -> Seq<char> {
        "warning"@
    }

    fn get_name(&self) -> (r: &'static str) {
        "warning"
    }

    open spec fn effect(
        &self,
        s: OptionState,
        p1: Seq<char>,
        p2: Seq<char>,
        p3: Seq<char>,
    ) -> OptionEffect {
        if p1.len() == 0 {
            (s, Err(parse_failure("No action/rule specified"@)))
        } else {
            match toggle_value(p2) {
                Err(e) => (s, Err(e)),
                Ok(val) => {
                    let (actions, found) = warning_effect(s.actions, p1, val);
                    (
                        OptionState { actions, ..s },
                        if found {
                            Ok("Warnings for "@ + p1 + " turned "@ + on_off(val))
                        } else {
                            Err(recov_failure("Bad action/rule specifier: "@ + p1))
                        },
                    )
                },
            }
        }
    }

    fn apply<C: ArchOptionContext>(&self, glb: &mut C, p1: &str, p2: &str, p3: &str) -> (r: Result<
        String,
        KunaError,
    >) {
        if p1.unicode_len() == 0 {
            return Err(KunaError::parse(String::from_str("No action/rule specified")));
        }
        match on_or_off(p2) {
            Err(e) => Err(e),
            Ok(val) => {
                if !glb.set_action_warning(val, p1) {
                    return Err(KunaError::recov(join2("Bad action/rule specifier: ", p1)));
                }
                let mut msg = join3("Warnings for ", p1, " turned ");
                msg.append(on_off_word(val));
                Ok(msg)
            },
        }
    }
}

/// `nullprinting`: whether a null pointer is printed as `NULL`.
#[derive(Debug, Clone, Copy)]
pub struct OptionNullPrinting;

impl ArchOption for OptionNullPrinting {
    open spec fn option_name(&self) -> Seq<char> {
        "nullprinting"@
    }

    fn get_name(&self) -> (r: &'static str) {
        "nullprinting"
    }

    open spec fn effect(
        &self,
        s: OptionState,
        p1: Seq<char>,
        p2: Seq<char>,
        p3: Seq<char>,
    ) -> OptionEffect {
        match toggle_value(p1) {
            Err(e) => (s, Err(e)),
            Ok(val) => if language_known(s) {
                (
                    with_print_settings(s, PrintSettings { null_printing: val, ..s.print.settings }),
                    Ok("Null printing turned "@ + on_off(val)),
                )
            } else {
                (s, Ok("Only a known output language accepts the null printing option"@))
            },
        }
    }

    fn apply<C: ArchOptionContext>(&self, glb: &mut C, p1: &str, p2: &str, p3: &str) -> (r: Result<
        String,
        KunaError,
    >) {
        match on_or_off(p1) {
            Err(e) => Err(e),
            Ok(val) => {
                if !glb.print_lang_known() {
                    return Ok(
                        String::from_str("Only a known output language accepts the null printing option"),
                    );
                }
                glb.set_null_printing(val);
                Ok(join2("Null printing turned ", on_off_word(val)))
            },
        }
    }
}

/// `inplaceops`: whether operators such as `+=` are used.
#[derive(Debug, Clone, Copy)]
pub struct OptionInPlaceOps;

impl ArchOption for OptionInPlaceOps {
    open spec fn option_name(&self) -> Seq<char> {
        "inplaceops"@
    }

    fn get_name(&self) -> (r: &'static str) {
        "inplaceops"
    }

    open spec fn effect(
        &self,
        s: OptionState,
        p1: Seq<char>,
        p2: Seq<char>,
        p3: Seq<char>,
    ) -> OptionEffect {
        match toggle_value(p1) {
            Err(e) => (s, Err(e)),
            Ok(val) => if language_known(s) {
                (
                    with_print_settings(s, PrintSettings { inplace_ops: val, ..s.print.settings }),
                    Ok("Inplace operators turned "@ + on_off(val)),
                )
            } else {
                (s, Ok("Can only set inplace operators for a known output language"@))
            },
        }
    }

    fn apply<C: ArchOptionContext>(&self, glb: &mut C, p1: &str, p2: &str, p3: &str) -> (r: Result<
        String,
        KunaError,
    >) {
        match on_or_off(p1) {
            Err(e) => Err(e),
            Ok(val) => {
                if !glb.print_lang_known() {
                    return Ok(
                        String::from_str("Can only set inplace operators for a known output language"),
                    );
                }
                glb.set_inplace_ops(val);
                Ok(join2("Inplace operators turned ", on_off_word(val)))
            },
        }
    }
}

/// `conventionprinting`: whether the calling convention is printed.
#[derive(Debug, Clone, Copy)]
pub struct OptionConventionPrinting;

impl ArchOption for OptionConventionPrinting {
    open spec fn option_name(&self) -> Seq<char> {
        "conventionprinting"@
    }

    fn get_name(&self) -> (r: &'static str) {
        "conventionprinting"
    }

    open spec fn effect(
        &self,
        s: OptionState,
        p1: Seq<char>,
        p2: Seq<char>,
        p3: Seq<char>,
    ) -> OptionEffect {
        match toggle_value(p1) {
            Err(e) => (s, Err(e)),
            Ok(val) => if language_known(s) {
                (
                    with_print_settings(s, PrintSettings { convention_printing: val, ..s.print.settings }),
                    Ok("Convention printing turned "@ + on_off(val)),
                )
            } else {
                (s, Ok("Can only set convention printing for a known output language"@))
            },
        }
    }

    fn apply<C: ArchOptionContext>(&self, glb: &mut C, p1: &str, p2: &str, p3: &str) -> (r: Result<
        String,
        KunaError,
    >) {
        match on_or_off(p1) {
            Err(e) => Err(e),
            Ok(val) => {
                if !glb.print_lang_known() {
                    return Ok(
                        String::from_str("Can only set convention printing for a known output language"),
                    );
                }
                glb.set_convention_printing(val);
                Ok(join2("Convention printing turned ", on_off_word(val)))
            },
        }
    }
}

/// `nocastprinting`: whether casts are left out.
#[derive(Debug, Clone, Copy)]
pub struct OptionNoCastPrinting;

impl ArchOption for OptionNoCastPrinting {
    open spec fn option_name(&self) -> Seq<char> {
        "nocastprinting"@
    }

    fn get_name(&self) -> (r: &'static str) {
        "nocastprinting"
    }

    open spec fn effect(
        &self,
        s: OptionState,
        p1: Seq<char>,
        p2: Seq<char>,
        p3: Seq<char>,
    ) -> OptionEffect {
        match toggle_value(p1) {
            Err(e) => (s, Err(e)),
            Ok(val) => if language_known(s) {
                (
                    with_print_settings(s, PrintSettings { no_cast_printing: val, ..s.print.settings }),
                    Ok("No cast printing turned "@ + on_off(val)),
                )
            } else {
                (s, Ok("Can only set no cast printing for a known output language"@))
            },
        }
    }

    fn apply<C: ArchOptionContext>(&self, glb: &mut C, p1: &str, p2: &str, p3: &str) -> (r: Result<
        String,
        KunaError,
    >) {
        match on_or_off(p1) {
            Err(e) => Err(e),
            Ok(val) => {
                if !glb.print_lang_known() {
                    return Ok(
                        String::from_str("Can only set no cast printing for a known output language"),
                    );
                }
                glb.set_no_cast_printing(val);
                Ok(join2("No cast printing turned ", on_off_word(val)))
            },
        }
    }
}

/// `hideextensions`: whether implied extensions are left out.
#[derive(Debug, Clone, Copy)]
pub struct OptionHideExtensions;

impl ArchOption for OptionHideExtensions {
    open spec fn option_name(&self) -> Seq<char> {
        "hideextensions"@
    }

    fn get_name(&self) -> (r: &'static str) {
        "hideextensions"
    }

    open spec fn effect(
        &self,
        s: OptionState,
        p1: Seq<char>,
        p2: Seq<char>,
        p3: Seq<char>,
    ) -> OptionEffect {
        match toggle_value(p1) {
            Err(e) => (s, Err(e)),
            Ok(val) => if language_known(s) {
                (
                    with_print_settings(s, PrintSettings { hide_implied_exts: val, ..s.print.settings }),
                    Ok("Implied extension hiding turned "@ + on_off(val)),
                )
            } else {
                (s, Ok("Can only toggle extension hiding for a known output language"@))
            },
        }
    }

    fn apply<C: ArchOptionContext>(&self, glb: &mut C, p1: &str, p2: &str, p3: &str) -> (r: Result<
        String,
        KunaError,
    >) {
        match on_or_off(p1) {
            Err(e) => Err(e),
            Ok(val) => {
                if !glb.print_lang_known() {
                    return Ok(
                        String::from_str("Can only toggle extension hiding for a known output language"),
                    );
                }
                glb.set_hide_implied_exts(val);
                Ok(join2("Implied extension hiding turned ", on_off_word(val)))
            },
        }
    }
}

/// `maxlinewidth`: the most characters of a line.
#[derive(Debug, Clone, Copy)]
pub struct OptionMaxLineWidth;

impl ArchOption for OptionMaxLineWidth {
    open spec fn option_name(&self) -> Seq<char> {
        "maxlinewidth"@
    }

    fn get_name(&self) -> (r: &'static str) {
        "maxlinewidth"
    }

    open spec fn effect(
        &self,
        s: OptionState,
        p1: Seq<char>,
        p2: Seq<char>,
        p3: Seq<char>,
    ) -> OptionEffect {
        let val = signed_or(p1, (-1) as i32);
        if val == -1 {
            (s, Err(parse_failure("Must specify integer linewidth"@)))
        } else {
            (OptionState { print: PrintState { max_line_size: Some(val), ..s.print }, ..s }, Ok("Maximum line width set to "@ + p1))
        }
    }

    fn apply<C: ArchOptionContext>(&self, glb: &mut C, p1: &str, p2: &str, p3: &str) -> (r: Result<
        String,
        KunaError,
    >) {
        let val: i32 = read_signed(p1, -1);
        if val == -1 {
            return Err(KunaError::parse(String::from_str("Must specify integer linewidth")));
        }
        glb.set_max_line_size(val);
        Ok(join2("Maximum line width set to ", p1))
    }
}

/// `indentincrement`: characters of indentation for a nested block.
#[derive(Debug, Clone, Copy)]
pub struct OptionIndentIncrement;

impl ArchOption for OptionIndentIncrement {
    open spec fn option_name(&self) -> Seq<char> {
        "indentincrement"@
    }

    fn get_name(&self) -> (r: &'static str) {
        "indentincrement"
    }

    open spec fn effect(
        &self,
        s: OptionState,
        p1: Seq<char>,
        p2: Seq<char>,
        p3: Seq<char>,
    ) -> OptionEffect {
        let val = signed_or(p1, (-1) as i32);
        if val == -1 {
            (s, Err(parse_failure("Must specify integer increment"@)))
        } else {
            (with_print_settings(s, PrintSettings { indent_increment: val, ..s.print.settings }), Ok("Characters per indent level set to "@ + p1))
        }
    }

    fn apply<C: ArchOptionContext>(&self, glb: &mut C, p1: &str, p2: &str, p3: &str) -> (r: Result<
        String,
        KunaError,
    >) {
        let val: i32 = read_signed(p1, -1);
        if val == -1 {
            return Err(KunaError::parse(String::from_str("Must specify integer increment")));
        }
        glb.set_indent_increment(val);
        Ok(join2("Characters per indent level set to ", p1))
    }
}

/// `commentindent`: characters of indentation for a comment line.
#[derive(Debug, Clone, Copy)]
pub struct OptionCommentIndent;

impl ArchOption for OptionCommentIndent {
    open spec fn option_name(&self) -> Seq<char> {
        "commentindent"@
    }

    fn get_name(&self) -> (r: &'static str) {
        "commentindent"
    }

    open spec fn effect(
        &self,
        s: OptionState,
        p1: Seq<char>,
        p2: Seq<char>,
        p3: Seq<char>,
    ) -> OptionEffect {
        let val = signed_or(p1, (-1) as i32);
        if val == -1 {
            (s, Err(parse_failure("Must specify integer comment indent"@)))
        } else {
            (with_print_settings(s, PrintSettings { comment_indent: val, ..s.print.settings }), Ok("Comment indent set to "@ + p1))
        }
    }

    fn apply<C: ArchOptionContext>(&self, glb: &mut C, p1: &str, p2: &str, p3: &str) -> (r: Result<
        String,
        KunaError,
    >) {
        let val: i32 = read_signed(p1, -1);
        if val == -1 {
            return Err(KunaError::parse(String::from_str("Must specify integer comment indent")));
        }
        glb.set_line_comment_indent(val);
        Ok(join2("Comment indent set to ", p1))
    }
}

/// `commentstyle`: the style of comments.
#[derive(Debug, Clone, Copy)]
pub struct OptionCommentStyle;

impl ArchOption for OptionCommentStyle {
    open spec fn option_name(&self) -> Seq<char> {
        "commentstyle"@
    }

    fn get_name(&self) -> (r: &'static str) {
        "commentstyle"
    }

    open spec fn effect(
        &self,
        s: OptionState,
        p1: Seq<char>,
        p2: Seq<char>,
        p3: Seq<char>,
    ) -> OptionEffect {
        (
            OptionState { print: PrintState { comment_style: Some(p1), ..s.print }, ..s },
            Ok("Comment style set to "@ + p1),
        )
    }

    fn apply<C: ArchOptionContext>(&self, glb: &mut C, p1: &str, p2: &str, p3: &str) -> (r: Result<
        String,
        KunaError,
    >) {
        glb.set_comment_style(p1);
        Ok(join2("Comment style set to ", p1))
    }
}

/// `commentheader`: the types of comments in a function header.
#[derive(Debug, Clone, Copy)]
pub struct OptionCommentHeader;

impl ArchOption for OptionCommentHeader {
    open spec fn option_name(&self) -> Seq<char> {
        "commentheader"@
    }

    fn get_name(&self) -> (r: &'static str) {
        "commentheader"
    }

    open spec fn effect(
        &self,
        s: OptionState,
        p1: Seq<char>,
        p2: Seq<char>,
        p3: Seq<char>,
    ) -> OptionEffect {
        match toggle_value(p2) {
            Err(e) => (s, Err(e)),
            Ok(toggle) => match comment_type(p1) {
                Err(e) => (s, Err(e)),
                Ok(bit) => (
                    with_print_settings(
                        s,
                        PrintSettings {
                            header_comment: with_bit(s.print.settings.header_comment, bit, toggle),
                            ..s.print.settings
                        },
                    ),
                    Ok("Header comment type "@ + p1 + " turned "@ + on_off(toggle)),
                ),
            },
        }
    }

    fn apply<C: ArchOptionContext>(&self, glb: &mut C, p1: &str, p2: &str, p3: &str) -> (r: Result<
        String,
        KunaError,
    >) {
        match on_or_off(p2) {
            Err(e) => Err(e),
            Ok(toggle) => {
                let flags: u32 = glb.header_comment_flags();
                match encode_comment_type(p1) {
                    Err(e) => Err(e),
                    Ok(bit) => {
                        glb.set_header_comment_flags(change_bit(flags, bit, toggle));
                        let mut msg = join3("Header comment type ", p1, " turned ");
                        msg.append(on_off_word(toggle));
                        Ok(msg)
                    },
                }
            },
        }
    }
}

/// `commentinstruction`: the types of comments in a function body.
#[derive(Debug, Clone, Copy)]
pub struct OptionCommentInstruction;

impl ArchOption for OptionCommentInstruction {
    open spec fn option_name(&self) -> Seq<char> {
        "commentinstruction"@
    }

    fn get_name(&self) -> (r: &'static str) {
        "commentinstruction"
    }

    open spec fn effect(
        &self,
        s: OptionState,
        p1: Seq<char>,
        p2: Seq<char>,
        p3: Seq<char>,
    ) -> OptionEffect {
        match toggle_value(p2) {
            Err(e) => (s, Err(e)),
            Ok(toggle) => match comment_type(p1) {
                Err(e) => (s, Err(e)),
                Ok(bit) => (
                    with_print_settings(
                        s,
                        PrintSettings {
                            instruction_comment: with_bit(s.print.settings.instruction_comment, bit, toggle),
                            ..s.print.settings
                        },
                    ),
                    Ok("Instruction comment type "@ + p1 + " turned "@ + on_off(toggle)),
                ),
            },
        }
    }

    fn apply<C: ArchOptionContext>(&self, glb: &mut C, p1: &str, p2: &str, p3: &str) -> (r: Result<
        String,
        KunaError,
    >) {
        match on_or_off(p2) {
            Err(e) => Err(e),
            Ok(toggle) => {
                let flags: u32 = glb.instruction_comment_flags();
                match encode_comment_type(p1) {
                    Err(e) => Err(e),
                    Ok(bit) => {
                        glb.set_instruction_comment_flags(change_bit(flags, bit, toggle));
                        let mut msg = join3("Instruction comment type ", p1, " turned ");
                        msg.append(on_off_word(toggle));
                        Ok(msg)
                    },
                }
            },
        }
    }
}

/// `integerformat`: the format of integers.
#[derive(Debug, Clone, Copy)]
pub struct OptionIntegerFormat;

impl ArchOption for OptionIntegerFormat {
    open spec fn option_name(&self) -> Seq<char> {
        "integerformat"@
    }

    fn get_name(&self) -> (r: &'static str) {
        "integerformat"
    }

    open spec fn effect(
        &self,
        s: OptionState,
        p1: Seq<char>,
        p2: Seq<char>,
        p3: Seq<char>,
    ) -> OptionEffect {
        (
            OptionState { print: PrintState { integer_format: p1, ..s.print }, ..s },
            Ok("Integer format set to "@ + p1),
        )
    }

    fn apply<C: ArchOptionContext>(&self, glb: &mut C, p1: &str, p2: &str, p3: &str) -> (r: Result<
        String,
        KunaError,
    >) {
        glb.set_integer_format(p1);
        Ok(join2("Integer format set to ", p1))
    }
}

/// The brace style of a name.
pub open spec fn brace_style(name: Seq<char>) -> Option<BraceStyle> {
    if name == "same"@ {
        Some(BraceStyle::SameLine)
    } else if name == "next"@ {
        Some(BraceStyle::NextLine)
    } else if name == "skip"@ {
        Some(BraceStyle::SkipLine)
    } else {
        None
    }
}

fn read_brace_style(name: &str) -> (r: Option<BraceStyle>)
    ensures
        r == brace_style(name@),
{
    if same_text(name, "same") {
        Some(BraceStyle::SameLine)
    } else if same_text(name, "next") {
        Some(BraceStyle::NextLine)
    } else if same_text(name, "skip") {
        Some(BraceStyle::SkipLine)
    } else {
        None
    }
}

/// The kind of block of a name.
pub open spec fn brace_category(name: Seq<char>) -> Option<BraceCategory> {
    if name == "function"@ {
        Some(BraceCategory::Function)
    } else if name == "ifelse"@ {
        Some(BraceCategory::IfElse)
    } else if name == "loop"@ {
        Some(BraceCategory::Loop)
    } else if name == "switch"@ {
        Some(BraceCategory::Switch)
    } else {
        None
    }
}

fn read_brace_category(name: &str) -> (r: Option<BraceCategory>)
    ensures
        r == brace_category(name@),
{
    if same_text(name, "function") {
        Some(BraceCategory::Function)
    } else if same_text(name, "ifelse") {
        Some(BraceCategory::IfElse)
    } else if same_text(name, "loop") {
        Some(BraceCategory::Loop)
    } else if same_text(name, "switch") {
        Some(BraceCategory::Switch)
    } else {
        None
    }
}

/// `braceformat`: where the opening brace of a kind of block goes.
#[derive(Debug, Clone, Copy)]
pub struct OptionBraceFormat;

impl ArchOption for OptionBraceFormat {
    open spec fn option_name(&self) -> Seq<char> {
        "braceformat"@
    }

    fn get_name(&self) -> (r: &'static str) {
        "braceformat"
    }

    open spec fn effect(
        &self,
        s: OptionState,
        p1: Seq<char>,
        p2: Seq<char>,
        p3: Seq<char>,
    ) -> OptionEffect {
        if !language_known(s) {
            (s, Ok("Can only set brace formatting for a known output language"@))
        } else {
            match (brace_style(p2), brace_category(p1)) {
                (None, _) => (s, Err(parse_failure("Unknown brace style: "@ + p2))),
                (_, None) => (s, Err(parse_failure("Unknown brace format category: "@ + p1))),
                (Some(style), Some(category)) => (
                    with_print_settings(s, with_brace(s.print.settings, category, style)),
                    Ok("Brace formatting for "@ + p1 + " set to "@ + p2),
                ),
            }
        }
    }

    fn apply<C: ArchOptionContext>(&self, glb: &mut C, p1: &str, p2: &str, p3: &str) -> (r: Result<
        String,
        KunaError,
    >) {
        if !glb.print_lang_known() {
            return Ok(
                String::from_str("Can only set brace formatting for a known output language"),
            );
        }
        match read_brace_style(p2) {
            None => Err(KunaError::parse(join2("Unknown brace style: ", p2))),
            Some(style) => match read_brace_category(p1) {
                None => Err(KunaError::parse(join2("Unknown brace format category: ", p1))),
                Some(category) => {
                    glb.set_brace_format(category, style);
                    let mut msg = join3("Brace formatting for ", p1, " set to ");
                    msg.append(p2);
                    Ok(msg)
                },
            },
        }
    }
}

/// `setaction`: the group of actions that runs, or a copy of one.
#[derive(Debug, Clone, Copy)]
pub struct OptionSetAction;

impl ArchOption for OptionSetAction {
    open spec fn option_name(&self) -> Seq<char> {
        "setaction"@
    }

    fn get_name(&self) -> (r: &'static str) {
        "setaction"
    }

    open spec fn effect(
        &self,
        s: OptionState,
        p1: Seq<char>,
        p2: Seq<char>,
        p3: Seq<char>,
    ) -> OptionEffect {
        if p1.len() == 0 {
            (s, Err(parse_failure("Must specify preexisting action"@)))
        } else if p2.len() > 0 {
            (
                OptionState {
                    actions: select_effect(clone_effect(s.actions, p1, p2), p2),
                    ..s
                },
                Ok("Created "@ + p2 + " by cloning "@ + p1 + " and made it current"@),
            )
        } else {
            (
                OptionState { actions: select_effect(s.actions, p1), ..s },
                Ok("Set current action to "@ + p1),
            )
        }
    }

    fn apply<C: ArchOptionContext>(&self, glb: &mut C, p1: &str, p2: &str, p3: &str) -> (r: Result<
        String,
        KunaError,
    >) {
        if p1.unicode_len() == 0 {
            return Err(KunaError::parse(String::from_str("Must specify preexisting action")));
        }
        if p2.unicode_len() > 0 {
            glb.clone_action_group(p1, p2);
            glb.set_current_action(p2);
            let mut msg = join3("Created ", p2, " by cloning ");
            msg.append(p1);
            msg.append(" and made it current");
            return Ok(msg);
        }
        glb.set_current_action(p1);
        Ok(join2("Set current action to ", p1))
    }
}

/// `currentaction`: a sub-group of actions, in a group or in the current one.
#[derive(Debug, Clone, Copy)]
pub struct OptionCurrentAction;

impl ArchOption for OptionCurrentAction {
    open spec fn option_name(&self) -> Seq<char> {
        "currentaction"@
    }

    fn get_name(&self) -> (r: &'static str) {
        "currentaction"
    }

    open spec fn effect(
        &self,
        s: OptionState,
        p1: Seq<char>,
        p2: Seq<char>,
        p3: Seq<char>,
    ) -> OptionEffect {
        if p1.len() == 0 || p2.len() == 0 {
            (s, Err(parse_failure("Must specify subaction, on/off"@)))
        } else if p3.len() > 0 {
            let selected = select_effect(s.actions, p1);
            match toggle_value(p3) {
                Err(e) => (OptionState { actions: selected, ..s }, Err(e)),
                Ok(val) => (
                    OptionState { actions: toggle_effect(selected, p1, p2, val), ..s },
                    Ok("Toggled "@ + p2 + " in action "@ + p1),
                ),
            }
        } else {
            let cur = current_name(s.actions);
            match toggle_value(p2) {
                Err(e) => (s, Err(e)),
                Ok(val) => (
                    OptionState { actions: toggle_effect(s.actions, cur, p1, val), ..s },
                    Ok("Toggled "@ + p1 + " in action "@ + cur),
                ),
            }
        }
    }

    fn apply<C: ArchOptionContext>(&self, glb: &mut C, p1: &str, p2: &str, p3: &str) -> (r: Result<
        String,
        KunaError,
    >) {
        if p1.unicode_len() == 0 || p2.unicode_len() == 0 {
            return Err(KunaError::parse(String::from_str("Must specify subaction, on/off")));
        }
        if p3.unicode_len() > 0 {
            glb.set_current_action(p1);
            match on_or_off(p3) {
                Err(e) => Err(e),
                Ok(val) => {
                    glb.toggle_action(p1, p2, val);
                    let mut msg = join3("Toggled ", p2, " in action ");
                    msg.append(p1);
                    Ok(msg)
                },
            }
        } else {
            match on_or_off(p2) {
                Err(e) => Err(e),
                Ok(val) => {
                    let cur = glb.current_action_name();
                    glb.toggle_action(cur.as_str(), p1, val);
                    let mut msg = join3("Toggled ", p1, " in action ");
                    msg.append(cur.as_str());
                    Ok(msg)
                },
            }
        }
    }
}

/// `allowcontextset`: whether decoding instructions may change the context.
#[derive(Debug, Clone, Copy)]
pub struct OptionAllowContextSet;

impl ArchOption for OptionAllowContextSet {
    open spec fn option_name(&self) -> Seq<char> {
        "allowcontextset"@
    }

    fn get_name(&self) -> (r: &'static str) {
        "allowcontextset"
    }

    open spec fn effect(
        &self,
        s: OptionState,
        p1: Seq<char>,
        p2: Seq<char>,
        p3: Seq<char>,
    ) -> OptionEffect {
        match toggle_value(p1) {
            Err(e) => (s, Err(e)),
            Ok(val) => (
                OptionState { context_set_allowed: val, ..s },
                Ok("Toggled allowcontextset to "@ + on_off(val)),
            ),
        }
    }

    fn apply<C: ArchOptionContext>(&self, glb: &mut C, p1: &str, p2: &str, p3: &str) -> (r: Result<
        String,
        KunaError,
    >) {
        match on_or_off(p1) {
            Err(e) => Err(e),
            Ok(val) => {
                let msg = join2("Toggled allowcontextset to ", on_off_word(val));
                glb.allow_context_set(val);
                Ok(msg)
            },
        }
    }
}

/// `ignoreunimplemented`: whether an unimplemented instruction does nothing.
#[derive(Debug, Clone, Copy)]
pub struct OptionIgnoreUnimplemented;

impl ArchOption for OptionIgnoreUnimplemented {
    open spec fn option_name(&self) -> Seq<char> {
        "ignoreunimplemented"@
    }

    fn get_name(&self) -> (r: &'static str) {
        "ignoreunimplemented"
    }

    open spec fn effect(
        &self,
        s: OptionState,
        p1: Seq<char>,
        p2: Seq<char>,
        p3: Seq<char>,
    ) -> OptionEffect {
        match toggle_value(p1) {
            Err(e) => (s, Err(e)),
            Ok(val) => (
                OptionState {
                    flow_options: with_bit(s.flow_options, IGNORE_UNIMPLEMENTED, val),
                    ..s
                },
                Ok(
                    if val {
                        "Unimplemented instructions are now ignored (treated as nop)"@
                    } else {
                        "Unimplemented instructions now generate warnings"@
                    },
                ),
            ),
        }
    }

    fn apply<C: ArchOptionContext>(&self, glb: &mut C, p1: &str, p2: &str, p3: &str) -> (r: Result<
        String,
        KunaError,
    >) {
        match on_or_off(p1) {
            Err(e) => Err(e),
            Ok(val) => {
                let flags: u32 = glb.flow_options();
                glb.set_flow_options(change_bit(flags, IGNORE_UNIMPLEMENTED, val));
                if val {
                    Ok(String::from_str("Unimplemented instructions are now ignored (treated as nop)"))
                } else {
                    Ok(String::from_str("Unimplemented instructions now generate warnings"))
                }
            },
        }
    }
}

/// `errorunimplemented`: whether an unimplemented instruction is an error.
#[derive(Debug, Clone, Copy)]
pub struct OptionErrorUnimplemented;

impl ArchOption for OptionErrorUnimplemented {
    open spec fn option_name(&self) -> Seq<char> {
        "errorunimplemented"@
    }

    fn get_name(&self) -> (r: &'static str) {
        "errorunimplemented"
    }

    open spec fn effect(
        &self,
        s: OptionState,
        p1: Seq<char>,
        p2: Seq<char>,
        p3: Seq<char>,
    ) -> OptionEffect {
        match toggle_value(p1) {
            Err(e) => (s, Err(e)),
            Ok(val) => (
                OptionState {
                    flow_options: with_bit(s.flow_options, ERROR_UNIMPLEMENTED, val),
                    ..s
                },
                Ok(
                    if val {
                        "Unimplemented instructions are now a fatal error"@
                    } else {
                        "Unimplemented instructions now NOT a fatal error"@
                    },
                ),
            ),
        }
    }

    fn apply<C: ArchOptionContext>(&self, glb: &mut C, p1: &str, p2: &str, p3: &str) -> (r: Result<
        String,
        KunaError,
    >) {
        match on_or_off(p1) {
            Err(e) => Err(e),
            Ok(val) => {
                let flags: u32 = glb.flow_options();
                glb.set_flow_options(change_bit(flags, ERROR_UNIMPLEMENTED, val));
                if val {
                    Ok(String::from_str("Unimplemented instructions are now a fatal error"))
                } else {
                    Ok(String::from_str("Unimplemented instructions now NOT a fatal error"))
                }
            },
        }
    }
}

/// `errorreinterpreted`: whether an instruction that is read in two ways is an error.
#[derive(Debug, Clone, Copy)]
pub struct OptionErrorReinterpreted;

impl ArchOption for OptionErrorReinterpreted {
    open spec fn option_name(&self) -> Seq<char> {
        "errorreinterpreted"@
    }

    fn get_name(&self) -> (r: &'static str) {
        "errorreinterpreted"
    }

    open spec fn effect(
        &self,
        s: OptionState,
        p1: Seq<char>,
        p2: Seq<char>,
        p3: Seq<char>,
    ) -> OptionEffect {
        match toggle_value(p1) {
            Err(e) => (s, Err(e)),
            Ok(val) => (
                OptionState {
                    flow_options: with_bit(s.flow_options, ERROR_REINTERPRETED, val),
                    ..s
                },
                Ok(
                    if val {
                        "Instruction reinterpretation is now a fatal error"@
                    } else {
                        "Instruction reinterpretation is now NOT a fatal error"@
                    },
                ),
            ),
        }
    }

    fn apply<C: ArchOptionContext>(&self, glb: &mut C, p1: &str, p2: &str, p3: &str) -> (r: Result<
        String,
        KunaError,
    >) {
        match on_or_off(p1) {
            Err(e) => Err(e),
            Ok(val) => {
                let flags: u32 = glb.flow_options();
                glb.set_flow_options(change_bit(flags, ERROR_REINTERPRETED, val));
                if val {
                    Ok(String::from_str("Instruction reinterpretation is now a fatal error"))
                } else {
                    Ok(String::from_str("Instruction reinterpretation is now NOT a fatal error"))
                }
            },
        }
    }
}

/// `errortoomanyinstructions`: whether too many instructions are an error.
#[derive(Debug, Clone, Copy)]
pub struct OptionErrorTooManyInstructions;

impl ArchOption for OptionErrorTooManyInstructions {
    open spec fn option_name(&self) -> Seq<char> {
        "errortoomanyinstructions"@
    }

    fn get_name(&self) -> (r: &'static str) {
        "errortoomanyinstructions"
    }

    open spec fn effect(
        &self,
        s: OptionState,
        p1: Seq<char>,
        p2: Seq<char>,
        p3: Seq<char>,
    ) -> OptionEffect {
        match toggle_value(p1) {
            Err(e) => (s, Err(e)),
            Ok(val) => (
                OptionState {
                    flow_options: with_bit(s.flow_options, ERROR_TOOMANYINSTRUCTIONS, val),
                    ..s
                },
                Ok(
                    if val {
                        "Too many instructions are now a fatal error"@
                    } else {
                        "Too many instructions are now NOT a fatal error"@
                    },
                ),
            ),
        }
    }

    fn apply<C: ArchOptionContext>(&self, glb: &mut C, p1: &str, p2: &str, p3: &str) -> (r: Result<
        String,
        KunaError,
    >) {
        match on_or_off(p1) {
            Err(e) => Err(e),
            Ok(val) => {
                let flags: u32 = glb.flow_options();
                glb.set_flow_options(change_bit(flags, ERROR_TOOMANYINSTRUCTIONS, val));
                if val {
                    Ok(String::from_str("Too many instructions are now a fatal error"))
                } else {
                    Ok(String::from_str("Too many instructions are now NOT a fatal error"))
                }
            },
        }
    }
}

/// `jumpload`: whether the loads of a jump table are recorded.
#[derive(Debug, Clone, Copy)]
pub struct OptionJumpLoad;

impl ArchOption for OptionJumpLoad {
    open spec fn option_name(&self) -> Seq<char> {
        "jumpload"@
    }

    fn get_name(&self) -> (r: &'static str) {
        "jumpload"
    }

    open spec fn effect(
        &self,
        s: OptionState,
        p1: Seq<char>,
        p2: Seq<char>,
        p3: Seq<char>,
    ) -> OptionEffect {
        match toggle_value(p1) {
            Err(e) => (s, Err(e)),
            Ok(val) => (
                OptionState {
                    flow_options: with_bit(s.flow_options, RECORD_JUMPLOADS, val),
                    ..s
                },
                Ok(
                    if val {
                        "Jumptable analysis will record loads required to calculate jump address"@
                    } else {
                        "Jumptable analysis will NOT record loads"@
                    },
                ),
            ),
        }
    }

    fn apply<C: ArchOptionContext>(&self, glb: &mut C, p1: &str, p2: &str, p3: &str) -> (r: Result<
        String,
        KunaError,
    >) {
        match on_or_off(p1) {
            Err(e) => Err(e),
            Ok(val) => {
                let flags: u32 = glb.flow_options();
                glb.set_flow_options(change_bit(flags, RECORD_JUMPLOADS, val));
                if val {
                    Ok(String::from_str("Jumptable analysis will record loads required to calculate jump address"))
                } else {
                    Ok(String::from_str("Jumptable analysis will NOT record loads"))
                }
            },
        }
    }
}

/// `protoeval`: the model that unknown prototypes are evaluated with.
#[derive(Debug, Clone, Copy)]
pub struct OptionProtoEval;

impl ArchOption for OptionProtoEval {
    open spec fn option_name(&self) -> Seq<char> {
        "protoeval"@
    }

    fn get_name(&self) -> (r: &'static str) {
        "protoeval"
    }

    open spec fn effect(
        &self,
        s: OptionState,
        p1: Seq<char>,
        p2: Seq<char>,
        p3: Seq<char>,
    ) -> OptionEffect {
        if p1.len() == 0 {
            (s, Err(parse_failure("Must specify prototype model"@)))
        } else {
            let (models, r) = eval_effect(s.models, p1);
            (
                OptionState { models, ..s },
                match r {
                    Ok(()) => Ok("Set current evaluation to "@ + p1),
                    Err(e) => Err(e),
                },
            )
        }
    }

    fn apply<C: ArchOptionContext>(&self, glb: &mut C, p1: &str, p2: &str, p3: &str) -> (r: Result<
        String,
        KunaError,
    >) {
        if p1.unicode_len() == 0 {
            return Err(KunaError::parse(String::from_str("Must specify prototype model")));
        }
        match glb.set_eval_current_model(p1) {
            Err(e) => Err(e),
            Ok(()) => Ok(join2("Set current evaluation to ", p1)),
        }
    }
}

/// `setlanguage`: the language that is printed.
#[derive(Debug, Clone, Copy)]
pub struct OptionSetLanguage;

impl ArchOption for OptionSetLanguage {
    open spec fn option_name(&self) -> Seq<char> {
        "setlanguage"@
    }

    fn get_name(&self) -> (r: &'static str) {
        "setlanguage"
    }

    open spec fn effect(
        &self,
        s: OptionState,
        p1: Seq<char>,
        p2: Seq<char>,
        p3: Seq<char>,
    ) -> OptionEffect {
        match language_from(s.print.languages, p1, 0) {
            None => (s, Err(parse_failure("Unknown print language: "@ + p1))),
            Some(i) => {
                let name = s.print.languages[i].print_name@;
                (
                    OptionState { print: PrintState { name, ..s.print }, ..s },
                    Ok("Decompiler produces "@ + name),
                )
            },
        }
    }

    fn apply<C: ArchOptionContext>(&self, glb: &mut C, p1: &str, p2: &str, p3: &str) -> (r: Result<
        String,
        KunaError,
    >) {
        match glb.print_language_named(p1) {
            None => Err(KunaError::parse(join2("Unknown print language: ", p1))),
            Some(name) => {
                glb.set_print_language(name.as_str());
                Ok(join2("Decompiler produces ", name.as_str()))
            },
        }
    }
}

/// `jumptablemax`: the most entries of a jump table.
#[derive(Debug, Clone, Copy)]
pub struct OptionJumpTableMax;

impl ArchOption for OptionJumpTableMax {
    open spec fn option_name(&self) -> Seq<char> {
        "jumptablemax"@
    }

    fn get_name(&self) -> (r: &'static str) {
        "jumptablemax"
    }

    open spec fn effect(
        &self,
        s: OptionState,
        p1: Seq<char>,
        p2: Seq<char>,
        p3: Seq<char>,
    ) -> OptionEffect {
        let val = unsigned_or(p1, 0);
        if val == 0 {
            (s, Err(parse_failure("Must specify integer maximum"@)))
        } else {
            (
                OptionState { max_jumptable_size: val, ..s },
                Ok("Maximum jumptable size set to "@ + p1),
            )
        }
    }

    fn apply<C: ArchOptionContext>(&self, glb: &mut C, p1: &str, p2: &str, p3: &str) -> (r: Result<
        String,
        KunaError,
    >) {
        let val: u32 = read_unsigned(p1, 0);
        if val == 0 {
            return Err(KunaError::parse(String::from_str("Must specify integer maximum")));
        }
        glb.set_max_jumptable_size(val);
        Ok(join2("Maximum jumptable size set to ", p1))
    }
}

/// `togglerule`: whether a rule of the current group runs.
#[derive(Debug, Clone, Copy)]
pub struct OptionToggleRule;

impl ArchOption for OptionToggleRule {
    open spec fn option_name(&self) -> Seq<char> {
        "togglerule"@
    }

    fn get_name(&self) -> (r: &'static str) {
        "togglerule"
    }

    open spec fn effect(
        &self,
        s: OptionState,
        p1: Seq<char>,
        p2: Seq<char>,
        p3: Seq<char>,
    ) -> OptionEffect {
        if p1.len() == 0 {
            (s, Err(parse_failure("Must specify rule path"@)))
        } else if p2.len() == 0 {
            (s, Err(parse_failure("Must specify on/off"@)))
        } else {
            match toggle_value(p2) {
                Err(e) => (s, Err(e)),
                Ok(val) => if current_rules(s.actions) is None {
                    (s, Err(lowlevel_failure("Missing current action"@)))
                } else {
                    let (actions, found) = enable_effect(s.actions, p1, val);
                    (
                        OptionState { actions, ..s },
                        Ok(
                            if val && found {
                                "Successfully enabled rule"@
                            } else if val {
                                "Failed to enable rule"@
                            } else if found {
                                "Successfully disabled rule"@
                            } else {
                                "Failed to disable rule"@
                            },
                        ),
                    )
                },
            }
        }
    }

    fn apply<C: ArchOptionContext>(&self, glb: &mut C, p1: &str, p2: &str, p3: &str) -> (r: Result<
        String,
        KunaError,
    >) {
        if p1.unicode_len() == 0 {
            return Err(KunaError::parse(String::from_str("Must specify rule path")));
        }
        if p2.unicode_len() == 0 {
            return Err(KunaError::parse(String::from_str("Must specify on/off")));
        }
        match on_or_off(p2) {
            Err(e) => Err(e),
            Ok(val) => {
                if !glb.has_current_action() {
                    return Err(KunaError::lowlevel(String::from_str("Missing current action")));
                }
                if val {
                    if glb.enable_rule(p1) {
                        Ok(String::from_str("Successfully enabled rule"))
                    } else {
                        Ok(String::from_str("Failed to enable rule"))
                    }
                } else {
                    if glb.disable_rule(p1) {
                        Ok(String::from_str("Successfully disabled rule"))
                    } else {
                        Ok(String::from_str("Failed to disable rule"))
                    }
                }
            },
        }
    }
}

/// The alias blocking level of a name.
pub open spec fn alias_level(name: Seq<char>) -> Option<i32> {
    if name == "none"@ {
        Some(0)
    } else if name == "struct"@ {
        Some(1)
    } else if name == "array"@ {
        Some(2)
    } else if name == "all"@ {
        Some(3)
    } else {
        None
    }
}

fn read_alias_level(name: &str) -> (r: Option<i32>)
    ensures
        r == alias_level(name@),
{
    if same_text(name, "none") {
        Some(0)
    } else if same_text(name, "struct") {
        Some(1)
    } else if same_text(name, "array") {
        Some(2)
    } else if same_text(name, "all") {
        Some(3)
    } else {
        None
    }
}

/// `aliasblock`: which data-types on the stack block aliases.
#[derive(Debug, Clone, Copy)]
pub struct OptionAliasBlock;

impl ArchOption for OptionAliasBlock {
    open spec fn option_name(&self) -> Seq<char> {
        "aliasblock"@
    }

    fn get_name(&self) -> (r: &'static str) {
        "aliasblock"
    }

    open spec fn effect(
        &self,
        s: OptionState,
        p1: Seq<char>,
        p2: Seq<char>,
        p3: Seq<char>,
    ) -> OptionEffect {
        if p1.len() == 0 {
            (s, Err(parse_failure("Must specify alias block level"@)))
        } else {
            match alias_level(p1) {
                None => (s, Err(parse_failure("Unknown alias block level: "@ + p1))),
                Some(level) => (
                    OptionState { alias_block_level: level, ..s },
                    Ok(
                        if s.alias_block_level == level {
                            "Alias block level unchanged"@
                        } else {
                            "Alias block level set to "@ + p1
                        },
                    ),
                ),
            }
        }
    }

    fn apply<C: ArchOptionContext>(&self, glb: &mut C, p1: &str, p2: &str, p3: &str) -> (r: Result<
        String,
        KunaError,
    >) {
        if p1.unicode_len() == 0 {
            return Err(KunaError::parse(String::from_str("Must specify alias block level")));
        }
        let was: i32 = glb.alias_block_level();
        match read_alias_level(p1) {
            None => Err(KunaError::parse(join2("Unknown alias block level: ", p1))),
            Some(level) => {
                glb.set_alias_block_level(level);
                if was == level {
                    Ok(String::from_str("Alias block level unchanged"))
                } else {
                    Ok(join2("Alias block level set to ", p1))
                }
            },
        }
    }
}

/// `maxinstruction`: the most instructions of a function.
#[derive(Debug, Clone, Copy)]
pub struct OptionMaxInstruction;

impl ArchOption for OptionMaxInstruction {
    open spec fn option_name(&self) -> Seq<char> {
        "maxinstruction"@
    }

    fn get_name(&self) -> (r: &'static str) {
        "maxinstruction"
    }

    open spec fn effect(
        &self,
        s: OptionState,
        p1: Seq<char>,
        p2: Seq<char>,
        p3: Seq<char>,
    ) -> OptionEffect {
        if p1.len() == 0 {
            (s, Err(parse_failure("Must specify number of instructions"@)))
        } else {
            let max = signed_or(p1, (-1) as i32);
            if max < 0 {
                (s, Err(parse_failure("Bad maxinstruction parameter"@)))
            } else {
                (
                    OptionState { max_instructions: max as u32, ..s },
                    Ok("Maximum instructions per function set"@),
                )
            }
        }
    }

    fn apply<C: ArchOptionContext>(&self, glb: &mut C, p1: &str, p2: &str, p3: &str) -> (r: Result<
        String,
        KunaError,
    >) {
        if p1.unicode_len() == 0 {
            return Err(KunaError::parse(String::from_str("Must specify number of instructions")));
        }
        let max: i32 = read_signed(p1, -1);
        if max < 0 {
            return Err(KunaError::parse(String::from_str("Bad maxinstruction parameter")));
        }
        glb.set_max_instructions(max);
        Ok(String::from_str("Maximum instructions per function set"))
    }
}

/// `namespacestrategy`: how much of a namespace is printed.
#[derive(Debug, Clone, Copy)]
pub struct OptionNamespaceStrategy;

impl ArchOption for OptionNamespaceStrategy {
    open spec fn option_name(&self) -> Seq<char> {
        "namespacestrategy"@
    }

    fn get_name(&self) -> (r: &'static str) {
        "namespacestrategy"
    }

    open spec fn effect(
        &self,
        s: OptionState,
        p1: Seq<char>,
        p2: Seq<char>,
        p3: Seq<char>,
    ) -> OptionEffect {
        if p1 == "minimal"@ {
            (
                with_print_settings(
                    s,
                    PrintSettings {
                        namespaces: NamespaceStrategy::Minimal,
                        ..s.print.settings
                    },
                ),
                Ok("Namespace strategy set"@),
            )
        } else if p1 == "all"@ {
            (
                with_print_settings(
                    s,
                    PrintSettings { namespaces: NamespaceStrategy::All, ..s.print.settings },
                ),
                Ok("Namespace strategy set"@),
            )
        } else if p1 == "none"@ {
            (
                with_print_settings(
                    s,
                    PrintSettings { namespaces: NamespaceStrategy::Never, ..s.print.settings },
                ),
                Ok("Namespace strategy set"@),
            )
        } else {
            (s, Err(parse_failure("Must specify a valid strategy"@)))
        }
    }

    fn apply<C: ArchOptionContext>(&self, glb: &mut C, p1: &str, p2: &str, p3: &str) -> (r: Result<
        String,
        KunaError,
    >) {
        let strategy = if same_text(p1, "minimal") {
            NamespaceStrategy::Minimal
        } else if same_text(p1, "all") {
            NamespaceStrategy::All
        } else if same_text(p1, "none") {
            NamespaceStrategy::Never
        } else {
            return Err(KunaError::parse(String::from_str("Must specify a valid strategy")));
        };
        glb.set_namespace_strategy(strategy);
        Ok(String::from_str("Namespace strategy set"))
    }
}

/// The splitting bit of a name; an empty name has none.
pub open spec fn split_bit(val: Seq<char>) -> Result<u32, Failure> {
    if val.len() == 0 {
        Ok(0)
    } else if val == "struct"@ {
        Ok(SPLIT_STRUCT)
    } else if val == "array"@ {
        Ok(SPLIT_ARRAY)
    } else if val == "pointer"@ {
        Ok(SPLIT_POINTER)
    } else {
        Err(lowlevel_failure("Unknown data-type split option: "@ + val))
    }
}

impl OptionSplitDatatypes {
    /// The splitting bit of a name; an empty name has none.
    pub fn get_option_bit(val: &str) -> (r: Result<u32, KunaError>)
        ensures
            outcome(r) == split_bit(val@),
    {
        if val.unicode_len() == 0 {
            Ok(0)
        } else if same_text(val, "struct") {
            Ok(SPLIT_STRUCT)
        } else if same_text(val, "array") {
            Ok(SPLIT_ARRAY)
        } else if same_text(val, "pointer") {
            Ok(SPLIT_POINTER)
        } else {
            Err(KunaError::lowlevel(join2("Unknown data-type split option: ", val)))
        }
    }
}

/// `splitdatatype`: which assignments are split by data-type.
#[derive(Debug, Clone, Copy)]
pub struct OptionSplitDatatypes;

impl ArchOption for OptionSplitDatatypes {
    open spec fn option_name(&self) -> Seq<char> {
        "splitdatatype"@
    }

    fn get_name(&self) -> (r: &'static str) {
        "splitdatatype"
    }

    open spec fn effect(
        &self,
        s: OptionState,
        p1: Seq<char>,
        p2: Seq<char>,
        p3: Seq<char>,
    ) -> OptionEffect {
        match (split_bit(p1), split_bit(p2), split_bit(p3)) {
            (Ok(a), Ok(b), Ok(c)) => {
                let config = a | b | c;
                let cur = current_name(s.actions);
                let copies = (config & (SPLIT_STRUCT | SPLIT_ARRAY)) != 0;
                let pointers = copies && (config & SPLIT_POINTER) != 0;
                (
                    OptionState {
                        split_datatype_config: config,
                        actions: toggle_effect(
                            toggle_effect(s.actions, cur, "splitcopy"@, copies),
                            cur,
                            "splitpointer"@,
                            pointers,
                        ),
                        ..s
                    },
                    Ok(
                        if s.split_datatype_config == config {
                            "Split data-type configuration unchanged"@
                        } else {
                            "Split data-type configuration set"@
                        },
                    ),
                )
            },
            (Err(e), _, _) => (s, Err(e)),
            (_, Err(e), _) => (s, Err(e)),
            (_, _, Err(e)) => (s, Err(e)),
        }
    }

    fn apply<C: ArchOptionContext>(&self, glb: &mut C, p1: &str, p2: &str, p3: &str) -> (r: Result<
        String,
        KunaError,
    >) {
        let was: u32 = glb.split_datatype_config();
        let a: u32 = match Self::get_option_bit(p1) {
            Ok(bit) => bit,
            Err(e) => {
                return Err(e);
            },
        };
        let b: u32 = match Self::get_option_bit(p2) {
            Ok(bit) => bit,
            Err(e) => {
                return Err(e);
            },
        };
        let c: u32 = match Self::get_option_bit(p3) {
            Ok(bit) => bit,
            Err(e) => {
                return Err(e);
            },
        };
        let config: u32 = a | b | c;
        glb.set_split_datatype_config(config);
        let cur = glb.current_action_name();
        if (config & (SPLIT_STRUCT | SPLIT_ARRAY)) == 0 {
            glb.toggle_action(cur.as_str(), "splitcopy", false);
            glb.toggle_action(cur.as_str(), "splitpointer", false);
        } else {
            let pointers = (config & SPLIT_POINTER) != 0;
            glb.toggle_action(cur.as_str(), "splitcopy", true);
            glb.toggle_action(cur.as_str(), "splitpointer", pointers);
        }
        if was == config {
            Ok(String::from_str("Split data-type configuration unchanged"))
        } else {
            Ok(String::from_str("Split data-type configuration set"))
        }
    }
}

/// What a value of `nanignore` asks for: to replace every NaN test, to replace those in
/// comparisons.
pub open spec fn nan_choice(name: Seq<char>) -> Option<(bool, bool)> {
    if name == "none"@ {
        Some((false, false))
    } else if name == "compare"@ {
        Some((false, true))
    } else if name == "all"@ {
        Some((true, true))
    } else {
        None
    }
}

fn read_nan_choice(name: &str) -> (r: Option<(bool, bool)>)
    ensures
        r == nan_choice(name@),
{
    if same_text(name, "none") {
        Some((false, false))
    } else if same_text(name, "compare") {
        Some((false, true))
    } else if same_text(name, "all") {
        Some((true, true))
    } else {
        None
    }
}

/// `nanignore`: which NaN tests are replaced.
#[derive(Debug, Clone, Copy)]
pub struct OptionNanIgnore;

impl ArchOption for OptionNanIgnore {
    open spec fn option_name(&self) -> Seq<char> {
        "nanignore"@
    }

    fn get_name(&self) -> (r: &'static str) {
        "nanignore"
    }

    open spec fn effect(
        &self,
        s: OptionState,
        p1: Seq<char>,
        p2: Seq<char>,
        p3: Seq<char>,
    ) -> OptionEffect {
        match nan_choice(p1) {
            None => (s, Err(lowlevel_failure("Unknown nanignore option: "@ + p1))),
            Some((all, compare)) => (
                OptionState {
                    nan_ignore_all: all,
                    nan_ignore_compare: compare,
                    actions: enable_effect(s.actions, "ignorenan"@, all || compare).0,
                    ..s
                },
                Ok(
                    if s.nan_ignore_all == all && s.nan_ignore_compare == compare {
                        "NaN ignore configuration unchanged"@
                    } else {
                        "Nan ignore configuration set to: "@ + p1
                    },
                ),
            ),
        }
    }

    fn apply<C: ArchOptionContext>(&self, glb: &mut C, p1: &str, p2: &str, p3: &str) -> (r: Result<
        String,
        KunaError,
    >) {
        let was_all = glb.nan_ignore_all();
        let was_compare = glb.nan_ignore_compare();
        match read_nan_choice(p1) {
            None => Err(KunaError::lowlevel(join2("Unknown nanignore option: ", p1))),
            Some((all, compare)) => {
                glb.set_nan_ignore_all(all);
                glb.set_nan_ignore_compare(compare);
                if !glb.nan_ignore_all() && !glb.nan_ignore_compare() {
                    glb.disable_rule("ignorenan");
                } else {
                    glb.enable_rule("ignorenan");
                }
                if was_all == glb.nan_ignore_all() && was_compare == glb.nan_ignore_compare() {
                    Ok(String::from_str("NaN ignore configuration unchanged"))
                } else {
                    Ok(join2("Nan ignore configuration set to: ", p1))
                }
            },
        }
    }
}

} // verus!
