//! The switches, one by one: which option turns each, how its value is read, whether it
//! starts out on, whether the analysis of a function reads it, and what the option calls it.

use vstd::prelude::*;
use crate::option_table::{LIBC_TYPES, LOADER_TOGGLE, PARSED_FLAG, TOGGLE};

verus! {

/// The switches in the order of their index: the option, how its value is read, whether the
/// switch starts out on, whether the analysis of a function reads it, and the option's label.
pub const SWITCHES: [(&'static str, u8, bool, bool, &'static str); 198] = [
    ("litpoolconst", TOGGLE, true, true, "In-code literal-pool constant folding"),
    ("inferfuncentry", TOGGLE, true, true, "Function-entry constant inference"),
    ("returnpair", PARSED_FLAG, false, true, ""),
    ("memsetrecover", PARSED_FLAG, true, true, ""),
    ("rodatastring", PARSED_FLAG, true, true, ""),
    ("ptrdepthcap", TOGGLE, false, true, "inferred pointer-nesting cap"),
    ("boolbyte", TOGGLE, true, true, "truth-valued byte typing"),
    ("charbyte", TOGGLE, true, true, "char-pointer byte typing"),
    ("codescalar", TOGGLE, true, true, "code-pointee scalar-value guard"),
    ("addcarrychain", TOGGLE, true, true, "Carry-chain wide-add recovery"),
    ("v850indirectbranch", TOGGLE, false, false, "V850 indirect-branch reclassification"),
    ("fastfailnoreturn", TOGGLE, true, false, "Windows int 0x29 (__fastfail) no-return"),
    ("decodehalt", TOGGLE, true, false, "Decode-failure halt reporting"),
    ("msvcftol", TOGGLE, true, false, "MSVC __ftol-family call-fixup"),
    ("tailcalljump", TOGGLE, true, false, "Tail-call jump recovery"),
    ("tailcallframe", TOGGLE, true, false, "Frame-teardown tail-call recovery"),
    ("tailcallsaved", TOGGLE, true, false, "Saved-register restore test for a frame teardown"),
    (
        "calltrampoline",
        TOGGLE,
        true,
        false,
        "Return-address-discarding call trampoline flow-through",
    ),
    ("callpopret", TOGGLE, true, false, "Return-address-popping call transfer flow-through"),
    ("entryretdispatch", TOGGLE, true, false, "Entry-point RET-dispatch call-chain recovery"),
    ("pushimmediateret", TOGGLE, true, false, "Push-immediate RET tail-transfer recovery"),
    ("cleanupcode", TOGGLE, true, true, "Rust drop/deallocate call removal"),
    ("linuxsyscall", TOGGLE, false, true, "Linux int 0x80 syscall naming"),
    ("msvcstrappend", TOGGLE, false, true, "MSVC std::string inlined append collapsing"),
    ("switchselector", TOGGLE, false, true, "Lowered-switch in-function-selector restriction"),
    ("funcboundflow", TOGGLE, true, false, "Fall-through bound at function entries"),
    ("mappedflowboundary", TOGGLE, true, false, "Mapped ELF x86 flow boundaries"),
    ("overlapbranch", TOGGLE, true, false, "Overlapping-branch fall-through truncation"),
    ("noreturn_extern", TOGGLE, true, false, "Name-based extern no-return"),
    ("sparcstructret", TOGGLE, false, false, "SPARC struct-return tail recovery"),
    ("ovlesssimplify", TOGGLE, true, true, "OV-flag signed-compare simplification"),
    ("booleanmask", TOGGLE, true, true, "Boolean sign-mask folding"),
    ("cancelbytearithmetic", PARSED_FLAG, true, true, ""),
    ("retsplitglobal", PARSED_FLAG, true, true, ""),
    ("simdlane", PARSED_FLAG, true, true, ""),
    ("constspaceload", PARSED_FLAG, true, true, ""),
    ("inputvarnodeadjust", TOGGLE, true, true, "Overlapping input-varnode adjustment"),
    ("retinputhalf", TOGGLE, true, true, "Returned input-parameter half retention"),
    ("retpushedhalf", TOGGLE, true, true, "Push-only register placement rejection"),
    ("noreturnretuse", TOGGLE, true, true, "No-return call argument use in return trials"),
    ("zeroidiomuse", TOGGLE, true, true, "Self-cancelling zeroing-idiom use in input trials"),
    ("exclusivearguse", TOGGLE, true, true, "Mutually-exclusive-path dereference in input trials"),
    ("callretpair", TOGGLE, true, true, "Two-register CALL output completion"),
    ("condexeplace", TOGGLE, true, true, "Conditional-const COPY block placement"),
    ("dynamichashmax", TOGGLE, true, false, "DynamicHash collision budget"),
    ("stackprobeloop", PARSED_FLAG, true, true, ""),
    ("flagcompare", TOGGLE, true, true, "Flag-modelled comparison folding"),
    ("switchmodbound", TOGGLE, false, true, "Switch modulo/and-mask index bound"),
    ("constselectjump", TOGGLE, false, true, "Constant-select indirect branch recovery"),
    ("switchguardbound", TOGGLE, false, true, "Switch CBRANCH-guard index bound"),
    ("switchsharedcase", TOGGLE, true, true, "Switch loop-carried-guard table"),
    ("switchmultipred", TOGGLE, true, true, "Switch multi-predecessor unrolled-guard table"),
    (
        "unrolledguard",
        TOGGLE,
        false,
        true,
        "Interleaved unrolled-guard jump-table partial-flow recovery",
    ),
    ("jtsharepartial", TOGGLE, true, true, "Shared jump-table partial sub-decompilation"),
    ("noreturn_externmatch", TOGGLE, true, false, "Name-matched extern no-return"),
    ("stackalias", TOGGLE, false, false, "Stack-pointer-alias dead-store hold"),
    ("arraystride", TOGGLE, true, true, "Strided-induction array recovery"),
    ("loweredswitch", PARSED_FLAG, true, true, ""),
    ("loweredswitchlabels", PARSED_FLAG, true, true, ""),
    ("loweredswitchvalue", TOGGLE, true, true, "Lowered-switch dispatch value check"),
    ("loweredswitchexact", TOGGLE, true, true, "Exact lowered-switch recovery"),
    ("loweredswitchheads", TOGGLE, true, true, "Lowered-switch detection from every cascade head"),
    ("callsitestackargs", PARSED_FLAG, true, true, ""),
    ("cookiescramble", PARSED_FLAG, true, true, ""),
    ("endptrbound", PARSED_FLAG, true, true, ""),
    ("mulblob", PARSED_FLAG, true, true, ""),
    ("calleepop", PARSED_FLAG, true, true, ""),
    ("calleeprotostack", PARSED_FLAG, true, true, ""),
    ("argclobber", PARSED_FLAG, true, true, ""),
    ("calleedeadarg", PARSED_FLAG, true, true, ""),
    ("calleepreserves", PARSED_FLAG, true, true, ""),
    ("calleeretpreserves", PARSED_FLAG, true, true, ""),
    ("calleescratchbody", PARSED_FLAG, true, true, ""),
    ("indirectanchor", PARSED_FLAG, true, true, ""),
    ("inputparamgap", PARSED_FLAG, true, true, ""),
    ("stackarggap", PARSED_FLAG, true, true, ""),
    ("varargstackargs", PARSED_FLAG, true, true, ""),
    ("calleearity", PARSED_FLAG, true, true, ""),
    ("calleearityfwd", PARSED_FLAG, true, true, ""),
    ("calleearitylive", PARSED_FLAG, true, true, ""),
    ("calleearitybody", PARSED_FLAG, true, true, ""),
    ("calleearitycut", PARSED_FLAG, true, true, ""),
    ("calleearityscratch", PARSED_FLAG, true, true, ""),
    ("loadguardrange", TOGGLE, true, true, "Indexed-stack guard ValueSet range refinement"),
    ("tiedstorekeep", TOGGLE, true, true, "Address-tied store copy-propagation brake"),
    ("loopcounterstore", TOGGLE, true, true, "Frame-slot loop-counter store brake"),
    ("tiedphitrim", TOGGLE, true, true, "Loop-head address-tied input trim"),
    ("splitstorekeep", TOGGLE, true, true, "Refinement-split stack store mark"),
    ("regionstructure", PARSED_FLAG, true, true, ""),
    (
        "regionlooprefine",
        TOGGLE,
        true,
        true,
        "Region structurer multi-exit/irreducible loop-successor refinement",
    ),
    (
        "regionedgeorder",
        TOGGLE,
        false,
        true,
        "Region structurer H2 post-dominator + dominance-tiered edge-virtualization ordering",
    ),
    ("gotoreduce", PARSED_FLAG, true, true, ""),
    ("ifelseflatten", PARSED_FLAG, true, true, ""),
    ("crossjumprevert", PARSED_FLAG, true, true, ""),
    ("taildup", PARSED_FLAG, true, true, ""),
    ("dedupitetail", PARSED_FLAG, true, true, ""),
    ("iteregion", PARSED_FLAG, true, true, ""),
    ("iteexpr", TOGGLE, false, true, "Computed-expression arm ?: recovery (iteregion extension)"),
    ("iteboolean", PARSED_FLAG, true, true, ""),
    ("itecondlist", PARSED_FLAG, true, true, ""),
    ("returndup", PARSED_FLAG, true, true, ""),
    ("orchain", PARSED_FLAG, true, true, ""),
    ("earlyreturn", PARSED_FLAG, true, true, ""),
    ("switchreturn", PARSED_FLAG, true, true, ""),
    ("loopbreak_recovery", PARSED_FLAG, true, true, ""),
    ("foldcallret", PARSED_FLAG, true, true, ""),
    ("foldcallretphi", PARSED_FLAG, true, true, ""),
    ("hideshadow", PARSED_FLAG, true, true, ""),
    ("stackguard", TOGGLE, true, true, "Stack-guard canary stripping"),
    ("securitycheck", TOGGLE, true, true, "Rust security-check branch stripping"),
    ("branchflip", TOGGLE, true, true, "Negated-guard branch flipping for linearity"),
    ("namestyle", PARSED_FLAG, true, true, ""),
    ("dedupvardecls", PARSED_FLAG, true, true, ""),
    ("paramrefdecl", TOGGLE, true, true, "address-taken parameter re-declaration guard"),
    ("declhightype", PARSED_FLAG, true, true, ""),
    ("realtypes", TOGGLE, true, false, "Real-C-type rendering for unknowns"),
    ("ctypes", TOGGLE, false, false, "valid-C core type spelling"),
    ("framelayout", TOGGLE, true, false, "recovered stack-frame reporting"),
    ("bytehonest", TOGGLE, true, false, "uncommitted-byte width reporting"),
    ("voidtailreturn", TOGGLE, false, false, "void tail-return elision"),
    ("cortexmpriv", TOGGLE, false, false, "Cortex-M privileged-mode guard folding"),
    ("compareform", PARSED_FLAG, true, true, ""),
    ("thumbfuncptr", TOGGLE, true, true, "Thumb function-pointer preservation"),
    ("noreturn_known", TOGGLE, true, false, "No-return-known analysis pass"),
    ("peimportcall", TOGGLE, true, true, "PE/Mach-O import-slot call binding"),
    ("libproto", TOGGLE, true, false, "Library-prototype analysis pass"),
    ("libcsigs", TOGGLE, true, false, "Measured libc signature extension"),
    ("libctypes", LIBC_TYPES, true, false, "Named libc aggregate types"),
    ("libctypes", LIBC_TYPES, false, false, "Named libc aggregate types"),
    ("win32sigs", TOGGLE, true, false, "Built-in Win32 API signature table"),
    ("declaredlibcproto", TOGGLE, true, false, "Declared-name libc prototype lookup"),
    ("strings", TOGGLE, true, false, "String-literal analysis pass"),
    ("widestrings", TOGGLE, true, false, "UTF-16LE width of the string-literal pass"),
    ("entry_disc", TOGGLE, true, false, "Entry-discovery analysis pass"),
    ("eh_frame_full", TOGGLE, false, false, ".eh_frame LSDA landing-pad discovery"),
    ("unmappedentry", TOGGLE, true, false, "Unmapped-CALL-target entry suppression"),
    ("ppclocalentry", TOGGLE, true, false, "PPC64 ELFv2 local-entry entry suppression"),
    ("picbase", TOGGLE, true, false, "PIC base-register folding in the xref index"),
    ("entrymainproto", TOGGLE, true, false, "PE CRT entry-function prototype recovery"),
    ("machomain", TOGGLE, true, false, "Mach-O LC_MAIN entry naming + prototype"),
    ("armlibcmain", TOGGLE, true, false, "non-PIE ARM crt1 _start->main recovery"),
    ("elfmain", TOGGLE, true, false, "ELF libc-start main naming + prototype"),
    ("fdeinterior", TOGGLE, true, false, ".eh_frame FDE-interior entry suppression"),
    ("pdatainterior", TOGGLE, true, false, ".pdata RUNTIME_FUNCTION-interior entry suppression"),
    ("pdbinterior", TOGGLE, true, false, "PDB procedure-interior entry suppression"),
    ("funcstart_patterns", TOGGLE, false, false, "Full byte-pattern function-start pass"),
    ("cortexmvectors", TOGGLE, false, false, "Widened ARM Cortex-M vector-table signature"),
    ("ptrentry", TOGGLE, false, false, "Pointer-referenced ARM function entries"),
    (
        "poolentry",
        TOGGLE,
        false,
        false,
        "ARM literal-pool inference (entry recall + AIF phantom suppression)",
    ),
    ("arm_markers", TOGGLE, true, false, "ARM/Thumb decode-mode marker pass"),
    ("entrythumbflow", TOGGLE, true, false, "Entry-reachable Thumb context walk"),
    ("mips_gp", TOGGLE, true, false, "MIPS $gp-recovery (t9 tracking) pass"),
    ("i386_pie_plt", LOADER_TOGGLE, true, false, "i386-PIE PLT-stub decode"),
    ("relocrebase", LOADER_TOGGLE, true, false, "relocatable-object analysis rebase"),
    ("dynrelocs", LOADER_TOGGLE, true, false, "linked-image dynamic-relocation application"),
    ("pdatachained", LOADER_TOGGLE, true, false, "PE chained-UNWIND_INFO .pdata entry suppression"),
    ("rexthunk", LOADER_TOGGLE, true, false, "x86-64 PE REX-prefixed import-thunk rejection"),
    ("symbolnamerepair", LOADER_TOGGLE, true, false, "degenerate-symbol-name repair"),
    ("msvcfpconst", LOADER_TOGGLE, true, false, "MSVC __real@ FP-constant recovery"),
    ("mips_isa", TOGGLE, true, false, "MIPS16 ISA_MODE decode-mode marker pass"),
    ("dwarf", TOGGLE, true, false, "DWARF recovery analysis pass"),
    ("datasyms", TOGGLE, true, false, "ELF data-symbol (STT_OBJECT) naming"),
    ("dwarf_lines", TOGGLE, false, false, "DWARF .debug_line source-line comment pass"),
    ("cppproto", TOGGLE, true, false, "DWARF C++ prototype recovery arm"),
    ("typedepth", LOADER_TOGGLE, true, false, "Full-depth DWARF type resolution"),
    ("dwarfstructs", LOADER_TOGGLE, true, false, "DWARF aggregate-layout import"),
    ("dwarfvariants", LOADER_TOGGLE, true, false, "DWARF variant-part import"),
    ("callfixup", TOGGLE, true, false, "Call-fixup analysis pass"),
    ("addrtable", TOGGLE, false, false, "Address-table analysis pass"),
    ("operand_refs", TOGGLE, false, false, "Scalar/operand reference-markup pass"),
    ("listing", TOGGLE, false, false, "Listing/xref disassembly tier"),
    ("fast_funcdisc", TOGGLE, false, false, "Fast whole-project function discovery"),
    ("rawdiscover", TOGGLE, true, false, "Raw-image recursive function discovery"),
    ("noreturn_disc", TOGGLE, true, false, "Discovered-no-return Listing consumer"),
    (
        "noreturn_discstrict",
        TOGGLE,
        true,
        false,
        "Discovered-no-return positive-evidence-only tally",
    ),
    ("noreturn_propagate", TOGGLE, true, false, "No-return propagation Listing consumer"),
    ("noreturn_error", TOGGLE, true, false, "error(nonzero,...) conditional no-return recognizer"),
    (
        "noreturn_reach",
        TOGGLE,
        true,
        false,
        "CFG-reachability no-return rule (Ghidra targetOnlyCallsNoReturn)",
    ),
    ("fid", TOGGLE, false, false, "FID fingerprint matcher Listing consumer"),
    ("rtti", TOGGLE, false, false, "MSVC RTTI / vftable class-name recovery pass"),
    ("itaniumrtti", TOGGLE, false, false, "Itanium (GCC/Clang) RTTI / vtable recovery pass"),
    ("aif", TOGGLE, false, false, "Aggressive Instruction Finder gap-walk Listing consumer"),
    ("aifstrict", TOGGLE, false, false, "AIF gap-cursor aligned slide (GH-299)"),
    ("aifcorroborate", TOGGLE, false, false, "AIF accept corroboration test (GH-313)"),
    ("tailcallentry", TOGGLE, false, false, "Tail-call function-entry recovery Listing consumer"),
    ("gopclntab", TOGGLE, true, false, "Go pclntab function-name recovery pass"),
    ("objc", TOGGLE, false, false, "Mach-O Objective-C metadata recovery pass"),
    ("pdb", TOGGLE, true, false, "PE PDB metadata recovery pass"),
    ("macho-arm64e", TOGGLE, false, false, "Mach-O arm64e Apple-Silicon spec selection"),
    ("evalcurrentproto", PARSED_FLAG, true, false, ""),
    ("charptr", TOGGLE, false, true, "character-pointer evidence"),
    ("nulterminator", PARSED_FLAG, false, true, ""),
    ("guardarm", PARSED_FLAG, false, true, ""),
    ("loopcondhoist", PARSED_FLAG, false, true, ""),
    ("paramcopyhoist", PARSED_FLAG, false, true, ""),
    ("indirectonly", PARSED_FLAG, false, true, ""),
    ("msvcstackguard", TOGGLE, false, true, "MSVC /GS frame-cookie stripping"),
    ("ifuncfpret", LOADER_TOGGLE, false, false, "IFUNC PLT-stub naming"),
];

} // verus!
