//! The table of named options, the settings that they write, and the value that
//! each setting is reset to.
//!
//! Every option has one row: its name, how its value is read, the setting that it
//! writes, and the label of its confirmation message. The rows stand in the order
//! of the names, so no name has two rows.

use vstd::prelude::*;

verus! {

/// Option `litpoolconst`: In-code literal-pool constant folding.
pub const LITPOOLCONST: usize = 0;

/// Option `inferfuncentry`: Function-entry constant inference.
pub const INFER_FUNCENTRY: usize = 1;

/// Switch of option `returnpair`.
pub const RETURN_SINGLE: usize = 2;

/// Switch of option `memsetrecover`.
pub const MEMSET_RECOVER: usize = 3;

/// Switch of option `rodatastring`.
pub const RODATA_STRING: usize = 4;

/// Option `ptrdepthcap`: inferred pointer-nesting cap.
pub const PTRDEPTHCAP: usize = 5;

/// Option `boolbyte`: truth-valued byte typing.
pub const BOOL_BYTE: usize = 6;

/// Option `charbyte`: char-pointer byte typing.
pub const CHAR_BYTE: usize = 7;

/// Option `codescalar`: code-pointee scalar-value guard.
pub const CODESCALAR: usize = 8;

/// Option `addcarrychain`: Carry-chain wide-add recovery.
pub const ADD_CARRY_CHAIN: usize = 9;

/// Option `v850indirectbranch`: V850 indirect-branch reclassification.
pub const V850_INDIRECT_BRANCH: usize = 10;

/// Option `fastfailnoreturn`: Windows int 0x29 (__fastfail) no-return.
pub const FASTFAIL_NORETURN: usize = 11;

/// Option `decodehalt`: Decode-failure halt reporting.
pub const DECODE_HALT: usize = 12;

/// Option `msvcftol`: MSVC __ftol-family call-fixup.
pub const MSVC_FTOL: usize = 13;

/// Option `tailcalljump`: Tail-call jump recovery.
pub const TAIL_CALL_JUMPS: usize = 14;

/// Option `tailcallframe`: Frame-teardown tail-call recovery.
pub const TAIL_CALL_FRAME: usize = 15;

/// Option `tailcallsaved`: Saved-register restore test for a frame teardown.
pub const TAIL_CALL_SAVED: usize = 16;

/// Option `calltrampoline`: Return-address-discarding call trampoline flow-through.
pub const CALL_TRAMPOLINE: usize = 17;

/// Option `callpopret`: Return-address-popping call transfer flow-through.
pub const CALL_POP_RET: usize = 18;

/// Option `entryretdispatch`: Entry-point RET-dispatch call-chain recovery.
pub const ENTRY_RET_DISPATCH: usize = 19;

/// Option `pushimmediateret`: Push-immediate RET tail-transfer recovery.
pub const PUSH_IMMEDIATE_RET: usize = 20;

/// Option `cleanupcode`: Rust drop/deallocate call removal.
pub const REMOVE_CLEANUP_CODE: usize = 21;

/// Option `linuxsyscall`: Linux int 0x80 syscall naming.
pub const LINUX_SYSCALL: usize = 22;

/// Option `msvcstrappend`: MSVC std::string inlined append collapsing.
pub const MSVC_STR_APPEND: usize = 23;

/// Option `switchselector`: Lowered-switch in-function-selector restriction.
pub const SWITCH_SELECTOR_GUARD: usize = 24;

/// Option `funcboundflow`: Fall-through bound at function entries.
pub const FUNCBOUND_FLOW: usize = 25;

/// Option `mappedflowboundary`: Mapped ELF x86 flow boundaries.
pub const MAPPED_FLOW_BOUNDARY: usize = 26;

/// Option `overlapbranch`: Overlapping-branch fall-through truncation.
pub const OVERLAP_BRANCH: usize = 27;

/// Option `noreturn_extern`: Name-based extern no-return.
pub const NORETURN_EXTERN_CALLS: usize = 28;

/// Option `sparcstructret`: SPARC struct-return tail recovery.
pub const SPARC_STRUCT_RETURN: usize = 29;

/// Option `ovlesssimplify`: OV-flag signed-compare simplification.
pub const OV_LESS_SIMPLIFY: usize = 30;

/// Option `booleanmask`: Boolean sign-mask folding.
pub const FOLD_BOOLEAN_MASK: usize = 31;

/// Switch of option `cancelbytearithmetic`.
pub const CANCEL_BYTE_ARITHMETIC: usize = 32;

/// Switch of option `retsplitglobal`.
pub const RET_SPLIT_GLOBAL: usize = 33;

/// Switch of option `simdlane`.
pub const SIMD_LANE_FOLD: usize = 34;

/// Switch of option `constspaceload`.
pub const CONST_SPACE_LOAD_FOLD: usize = 35;

/// Option `inputvarnodeadjust`: Overlapping input-varnode adjustment.
pub const INPUT_VARNODE_ADJUST: usize = 36;

/// Option `retinputhalf`: Returned input-parameter half retention.
pub const RET_INPUT_HALF: usize = 37;

/// Option `retpushedhalf`: Push-only register placement rejection.
pub const RET_PUSHED_HALF: usize = 38;

/// Option `noreturnretuse`: No-return call argument use in return trials.
pub const NORETURN_RET_USE: usize = 39;

/// Option `zeroidiomuse`: Self-cancelling zeroing-idiom use in input trials.
pub const ZERO_IDIOM_USE: usize = 40;

/// Option `exclusivearguse`: Mutually-exclusive-path dereference in input trials.
pub const EXCLUSIVE_ARG_USE: usize = 41;

/// Option `callretpair`: Two-register CALL output completion.
pub const CALL_RET_PAIR: usize = 42;

/// Option `condexeplace`: Conditional-const COPY block placement.
pub const CONDEXE_BLOCK_PLACEMENT: usize = 43;

/// Option `dynamichashmax`: DynamicHash collision budget.
pub const DYNAMIC_HASH_MAXDUP_HIGH: usize = 44;

/// Switch of option `stackprobeloop`.
pub const MODEL_STACK_PROBE_LOOP: usize = 45;

/// Option `flagcompare`: Flag-modelled comparison folding.
pub const FOLD_FLAG_COMPARE: usize = 46;

/// Option `switchmodbound`: Switch modulo/and-mask index bound.
pub const SWITCH_MODULO_BOUND: usize = 47;

/// Option `constselectjump`: Constant-select indirect branch recovery.
pub const CONST_SELECT_JUMP: usize = 48;

/// Option `switchguardbound`: Switch CBRANCH-guard index bound.
pub const SWITCH_GUARD_BOUND: usize = 49;

/// Option `switchsharedcase`: Switch loop-carried-guard table.
pub const SWITCH_SHARED_CASE: usize = 50;

/// Option `switchmultipred`: Switch multi-predecessor unrolled-guard table.
pub const SWITCH_MULTI_PRED: usize = 51;

/// Option `unrolledguard`: Interleaved unrolled-guard jump-table partial-flow recovery.
pub const UNROLLED_GUARD: usize = 52;

/// Option `jtsharepartial`: Shared jump-table partial sub-decompilation.
pub const JUMPTABLE_SHARE_PARTIAL: usize = 53;

/// Option `noreturn_externmatch`: Name-matched extern no-return.
pub const NORETURN_EXTERN_MATCH: usize = 54;

/// Option `stackalias`: Stack-pointer-alias dead-store hold.
pub const STACK_ALIAS_DEADSTORE: usize = 55;

/// Option `arraystride`: Strided-induction array recovery.
pub const RECOVER_ARRAY_STRIDE: usize = 56;

/// Switch of option `loweredswitch`.
pub const RECOVER_LOWERED_SWITCH: usize = 57;

/// Switch of option `loweredswitchlabels`.
pub const LOWERED_SWITCH_LABELS: usize = 58;

/// Option `loweredswitchvalue`: Lowered-switch dispatch value check.
pub const LOWERED_SWITCH_VALUE_CHECK: usize = 59;

/// Option `loweredswitchexact`: Exact lowered-switch recovery.
pub const LOWERED_SWITCH_EXACT: usize = 60;

/// Option `loweredswitchheads`: Lowered-switch detection from every cascade head.
pub const LOWERED_SWITCH_EVERY_HEAD: usize = 61;

/// Switch of option `callsitestackargs`.
pub const CALLSITE_STACK_ARGS: usize = 62;

/// Switch of option `cookiescramble`.
pub const COOKIE_SCRAMBLE: usize = 63;

/// Switch of option `endptrbound`.
pub const END_PTR_BOUND: usize = 64;

/// Switch of option `mulblob`.
pub const MUL_BLOB: usize = 65;

/// Switch of option `calleepop`.
pub const CALLEE_POP: usize = 66;

/// Switch of option `calleeprotostack`.
pub const CALLEE_PROTO_STACK: usize = 67;

/// Switch of option `argclobber`.
pub const ARG_CLOBBER: usize = 68;

/// Switch of option `calleedeadarg`.
pub const CALLEE_DEAD_ARG: usize = 69;

/// Switch of option `calleepreserves`.
pub const CALLEE_PRESERVES: usize = 70;

/// Switch of option `calleeretpreserves`.
pub const CALLEE_RET_PRESERVES: usize = 71;

/// Switch of option `calleescratchbody`.
pub const CALLEE_SCRATCH_BODY: usize = 72;

/// Switch of option `indirectanchor`.
pub const INDIRECT_ANCHOR: usize = 73;

/// Switch of option `inputparamgap`.
pub const INPUT_PARAM_GAP: usize = 74;

/// Switch of option `stackarggap`.
pub const STACK_ARG_GAP: usize = 75;

/// Switch of option `varargstackargs`.
pub const VARARG_STACK_ARGS: usize = 76;

/// Switch of option `calleearity`.
pub const CALLEE_ARITY: usize = 77;

/// Switch of option `calleearityfwd`.
pub const CALLEE_ARITY_FWD: usize = 78;

/// Switch of option `calleearitylive`.
pub const CALLEE_ARITY_LIVE: usize = 79;

/// Switch of option `calleearitybody`.
pub const CALLEE_ARITY_BODY: usize = 80;

/// Switch of option `calleearitycut`.
pub const CALLEE_ARITY_CUT: usize = 81;

/// Switch of option `calleearityscratch`.
pub const CALLEE_ARITY_SCRATCH: usize = 82;

/// Option `loadguardrange`: Indexed-stack guard ValueSet range refinement.
pub const LOAD_GUARD_RANGE: usize = 83;

/// Option `tiedstorekeep`: Address-tied store copy-propagation brake.
pub const TIED_STORE_KEEP: usize = 84;

/// Option `loopcounterstore`: Frame-slot loop-counter store brake.
pub const LOOP_COUNTER_STORE: usize = 85;

/// Option `tiedphitrim`: Loop-head address-tied input trim.
pub const TIED_PHI_TRIM: usize = 86;

/// Option `splitstorekeep`: Refinement-split stack store mark.
pub const SPLIT_STORE_KEEP: usize = 87;

/// Switch of option `regionstructure`.
pub const REGION_STRUCTURE: usize = 88;

/// Option `regionlooprefine`: Region structurer multi-exit/irreducible loop-successor refinement.
pub const REGION_LOOP_REFINE: usize = 89;

/// Option `regionedgeorder`: Region structurer H2 post-dominator + dominance-tiered
/// edge-virtualization ordering.
pub const REGION_EDGE_ORDER: usize = 90;

/// Switch of option `gotoreduce`.
pub const REDUCE_RETURN_GOTOS: usize = 91;

/// Switch of option `ifelseflatten`.
pub const FLATTEN_IFELSE: usize = 92;

/// Switch of option `crossjumprevert`.
pub const REVERT_CROSS_JUMPS: usize = 93;

/// Switch of option `taildup`.
pub const DUP_RETURN_CALL_TAILS: usize = 94;

/// Switch of option `dedupitetail`.
pub const DEDUP_ITE_TAIL: usize = 95;

/// Switch of option `iteregion`.
pub const ITEREGION: usize = 96;

/// Option `iteexpr`: Computed-expression arm ?: recovery (iteregion extension).
pub const ITEEXPR: usize = 97;

/// Switch of option `iteboolean`.
pub const ITEBOOLEAN: usize = 98;

/// Switch of option `itecondlist`.
pub const ITECONDLIST: usize = 99;

/// Switch of option `returndup`.
pub const DUPLICATE_SHARED_RETURNS: usize = 100;

/// Switch of option `orchain`.
pub const RETURNDUP_ORCHAIN: usize = 101;

/// Switch of option `earlyreturn`.
pub const EARLY_RETURN: usize = 102;

/// Switch of option `switchreturn`.
pub const SWITCH_RETURN: usize = 103;

/// Switch of option `loopbreak_recovery`.
pub const RECOVER_LOOP_BREAK: usize = 104;

/// Switch of option `foldcallret`.
pub const FOLD_CALL_RETURNS: usize = 105;

/// Switch of option `foldcallretphi`.
pub const FOLD_CALL_RET_PHI: usize = 106;

/// Switch of option `hideshadow`.
pub const HIDE_SHADOW: usize = 107;

/// Option `stackguard`: Stack-guard canary stripping.
pub const STRIP_STACK_GUARD: usize = 108;

/// Option `securitycheck`: Rust security-check branch stripping.
pub const STRIP_SECURITY_CHECK: usize = 109;

/// Option `branchflip`: Negated-guard branch flipping for linearity.
pub const BRANCH_FLIP: usize = 110;

/// Switch of option `namestyle`.
pub const NAME_STYLE_ANGR: usize = 111;

/// Switch of option `dedupvardecls`.
pub const DEDUP_VAR_DECLS: usize = 112;

/// Option `paramrefdecl`: address-taken parameter re-declaration guard.
pub const PARAM_REF_DECL: usize = 113;

/// Switch of option `declhightype`.
pub const DECL_HIGH_TYPE: usize = 114;

/// Option `realtypes`: Real-C-type rendering for unknowns.
pub const REALTYPES: usize = 115;

/// Option `ctypes`: valid-C core type spelling.
pub const CTYPES: usize = 116;

/// Option `framelayout`: recovered stack-frame reporting.
pub const FRAMELAYOUT: usize = 117;

/// Option `bytehonest`: uncommitted-byte width reporting.
pub const BYTE_HONEST: usize = 118;

/// Option `voidtailreturn`: void tail-return elision.
pub const VOIDTAILRETURN: usize = 119;

/// Option `cortexmpriv`: Cortex-M privileged-mode guard folding.
pub const CORTEXMPRIV: usize = 120;

/// Switch of option `compareform`.
pub const PRESENT_LESSEQUAL: usize = 121;

/// Option `thumbfuncptr`: Thumb function-pointer preservation.
pub const PRESERVE_THUMB_FUNCPTR: usize = 122;

/// Option `noreturn_known`: No-return-known analysis pass.
pub const ANALYSIS_NORETURN_KNOWN: usize = 123;

/// Option `peimportcall`: PE/Mach-O import-slot call binding.
pub const ANALYSIS_PEIMPORTCALL: usize = 124;

/// Option `libproto`: Library-prototype analysis pass.
pub const ANALYSIS_LIBPROTO: usize = 125;

/// Option `libcsigs`: Measured libc signature extension.
pub const ANALYSIS_LIBCSIGS: usize = 126;

/// Switch of option `libctypes`.
pub const ANALYSIS_LIBCTYPES: usize = 127;

/// Switch of option `libctypes`.
pub const ANALYSIS_LIBCTYPES_GLIBC: usize = 128;

/// Option `win32sigs`: Built-in Win32 API signature table.
pub const ANALYSIS_WIN32SIGS: usize = 129;

/// Option `declaredlibcproto`: Declared-name libc prototype lookup.
pub const ANALYSIS_DECLAREDLIBCPROTO: usize = 130;

/// Option `strings`: String-literal analysis pass.
pub const ANALYSIS_STRINGS: usize = 131;

/// Option `widestrings`: UTF-16LE width of the string-literal pass.
pub const ANALYSIS_WIDESTRINGS: usize = 132;

/// Option `entry_disc`: Entry-discovery analysis pass.
pub const ANALYSIS_ENTRY_DISC: usize = 133;

/// Option `eh_frame_full`: .eh_frame LSDA landing-pad discovery.
pub const ANALYSIS_EH_FRAME_FULL: usize = 134;

/// Option `unmappedentry`: Unmapped-CALL-target entry suppression.
pub const ANALYSIS_UNMAPPEDENTRY: usize = 135;

/// Option `ppclocalentry`: PPC64 ELFv2 local-entry entry suppression.
pub const ANALYSIS_PPCLOCALENTRY: usize = 136;

/// Option `picbase`: PIC base-register folding in the xref index.
pub const ANALYSIS_PICBASE: usize = 137;

/// Option `entrymainproto`: PE CRT entry-function prototype recovery.
pub const ANALYSIS_ENTRYMAINPROTO: usize = 138;

/// Option `machomain`: Mach-O LC_MAIN entry naming + prototype.
pub const ANALYSIS_MACHOMAIN: usize = 139;

/// Option `armlibcmain`: non-PIE ARM crt1 _start->main recovery.
pub const ANALYSIS_ARMLIBCMAIN: usize = 140;

/// Option `elfmain`: ELF libc-start main naming + prototype.
pub const ANALYSIS_ELFMAIN: usize = 141;

/// Option `fdeinterior`: .eh_frame FDE-interior entry suppression.
pub const ANALYSIS_FDEINTERIOR: usize = 142;

/// Option `pdatainterior`: .pdata RUNTIME_FUNCTION-interior entry suppression.
pub const ANALYSIS_PDATAINTERIOR: usize = 143;

/// Option `pdbinterior`: PDB procedure-interior entry suppression.
pub const ANALYSIS_PDBINTERIOR: usize = 144;

/// Option `funcstart_patterns`: Full byte-pattern function-start pass.
pub const ANALYSIS_FUNCSTART_PATTERNS: usize = 145;

/// Option `cortexmvectors`: Widened ARM Cortex-M vector-table signature.
pub const ANALYSIS_CORTEXMVECTORS: usize = 146;

/// Option `ptrentry`: Pointer-referenced ARM function entries.
pub const ANALYSIS_PTRENTRY: usize = 147;

/// Option `poolentry`: ARM literal-pool inference (entry recall + AIF phantom suppression).
pub const ANALYSIS_POOLENTRY: usize = 148;

/// Option `arm_markers`: ARM/Thumb decode-mode marker pass.
pub const ANALYSIS_ARM_MARKERS: usize = 149;

/// Option `entrythumbflow`: Entry-reachable Thumb context walk.
pub const ANALYSIS_ENTRYTHUMBFLOW: usize = 150;

/// Option `mips_gp`: MIPS $gp-recovery (t9 tracking) pass.
pub const ANALYSIS_MIPS_GP: usize = 151;

/// Option `i386_pie_plt`: i386-PIE PLT-stub decode.
pub const ANALYSIS_I386_PIE_PLT: usize = 152;

/// Option `relocrebase`: relocatable-object analysis rebase.
pub const ANALYSIS_RELOCREBASE: usize = 153;

/// Option `dynrelocs`: linked-image dynamic-relocation application.
pub const ANALYSIS_DYNRELOCS: usize = 154;

/// Option `pdatachained`: PE chained-UNWIND_INFO .pdata entry suppression.
pub const ANALYSIS_PDATACHAINED: usize = 155;

/// Option `rexthunk`: x86-64 PE REX-prefixed import-thunk rejection.
pub const ANALYSIS_REXTHUNK: usize = 156;

/// Option `symbolnamerepair`: degenerate-symbol-name repair.
pub const ANALYSIS_SYMBOLNAMEREPAIR: usize = 157;

/// Option `msvcfpconst`: MSVC __real@ FP-constant recovery.
pub const ANALYSIS_MSVCFPCONST: usize = 158;

/// Option `mips_isa`: MIPS16 ISA_MODE decode-mode marker pass.
pub const ANALYSIS_MIPS_ISA: usize = 159;

/// Option `dwarf`: DWARF recovery analysis pass.
pub const ANALYSIS_DWARF: usize = 160;

/// Option `datasyms`: ELF data-symbol (STT_OBJECT) naming.
pub const ANALYSIS_DATASYMS: usize = 161;

/// Option `dwarf_lines`: DWARF .debug_line source-line comment pass.
pub const ANALYSIS_DWARF_LINES: usize = 162;

/// Option `cppproto`: DWARF C++ prototype recovery arm.
pub const ANALYSIS_CPPPROTO: usize = 163;

/// Option `typedepth`: Full-depth DWARF type resolution.
pub const ANALYSIS_TYPEDEPTH: usize = 164;

/// Option `dwarfstructs`: DWARF aggregate-layout import.
pub const ANALYSIS_DWARFSTRUCTS: usize = 165;

/// Option `dwarfvariants`: DWARF variant-part import.
pub const ANALYSIS_DWARFVARIANTS: usize = 166;

/// Option `callfixup`: Call-fixup analysis pass.
pub const ANALYSIS_CALLFIXUP: usize = 167;

/// Option `addrtable`: Address-table analysis pass.
pub const ANALYSIS_ADDRTABLE: usize = 168;

/// Option `operand_refs`: Scalar/operand reference-markup pass.
pub const ANALYSIS_OPERAND_REFS: usize = 169;

/// Option `listing`: Listing/xref disassembly tier.
pub const ANALYSIS_LISTING: usize = 170;

/// Option `fast_funcdisc`: Fast whole-project function discovery.
pub const ANALYSIS_FAST_FUNCDISC: usize = 171;

/// Option `rawdiscover`: Raw-image recursive function discovery.
pub const ANALYSIS_RAWDISCOVER: usize = 172;

/// Option `noreturn_disc`: Discovered-no-return Listing consumer.
pub const ANALYSIS_NORETURN_DISC: usize = 173;

/// Option `noreturn_discstrict`: Discovered-no-return positive-evidence-only tally.
pub const ANALYSIS_NORETURN_DISCSTRICT: usize = 174;

/// Option `noreturn_propagate`: No-return propagation Listing consumer.
pub const ANALYSIS_NORETURN_PROPAGATE: usize = 175;

/// Option `noreturn_error`: error(nonzero,...) conditional no-return recognizer.
pub const ANALYSIS_NORETURN_ERROR: usize = 176;

/// Option `noreturn_reach`: CFG-reachability no-return rule (Ghidra targetOnlyCallsNoReturn).
pub const ANALYSIS_NORETURN_REACH: usize = 177;

/// Option `fid`: FID fingerprint matcher Listing consumer.
pub const ANALYSIS_FID: usize = 178;

/// Option `rtti`: MSVC RTTI / vftable class-name recovery pass.
pub const ANALYSIS_RTTI: usize = 179;

/// Option `itaniumrtti`: Itanium (GCC/Clang) RTTI / vtable recovery pass.
pub const ANALYSIS_ITANIUMRTTI: usize = 180;

/// Option `aif`: Aggressive Instruction Finder gap-walk Listing consumer.
pub const ANALYSIS_AIF: usize = 181;

/// Option `aifstrict`: AIF gap-cursor aligned slide (GH-299).
pub const ANALYSIS_AIFSTRICT: usize = 182;

/// Option `aifcorroborate`: AIF accept corroboration test (GH-313).
pub const ANALYSIS_AIFCORROBORATE: usize = 183;

/// Option `tailcallentry`: Tail-call function-entry recovery Listing consumer.
pub const ANALYSIS_TAILCALLENTRY: usize = 184;

/// Option `gopclntab`: Go pclntab function-name recovery pass.
pub const ANALYSIS_GOPCLNTAB: usize = 185;

/// Option `objc`: Mach-O Objective-C metadata recovery pass.
pub const ANALYSIS_OBJC: usize = 186;

/// Option `pdb`: PE PDB metadata recovery pass.
pub const ANALYSIS_PDB: usize = 187;

/// Option `macho-arm64e`: Mach-O arm64e Apple-Silicon spec selection.
pub const MACHO_ARM64E: usize = 188;

/// Switch of option `evalcurrentproto`.
pub const EVALCURRENTPROTO: usize = 189;

/// Option `charptr`: character-pointer evidence.
pub const CHAR_PTR: usize = 190;

/// Switch of option `nulterminator`.
pub const NUL_TERMINATOR: usize = 191;

/// Switch of option `guardarm`.
pub const GUARD_ARM: usize = 192;

/// Switch of option `loopcondhoist`.
pub const LOOP_COND_HOIST: usize = 193;

/// Switch of option `paramcopyhoist`.
pub const PARAM_COPY_HOIST: usize = 194;

/// Switch of option `indirectonly`.
pub const MARK_INDIRECT_ONLY: usize = 195;

/// Option `msvcstackguard`: MSVC /GS frame-cookie stripping.
pub const STRIP_MSVC_STACK_GUARD: usize = 196;

/// Option `ifuncfpret`: IFUNC PLT-stub naming.
pub const ANALYSIS_IFUNCFPRET: usize = 197;

/// How many switches there are.
pub const FLAG_COUNT: usize = 198;

/// The default of each switch.
pub const FLAG_DEFAULTS: [bool; 198] = [
    true,  // LITPOOLCONST
    true,  // INFER_FUNCENTRY
    false,  // RETURN_SINGLE
    true,  // MEMSET_RECOVER
    true,  // RODATA_STRING
    false,  // PTRDEPTHCAP
    true,  // BOOL_BYTE
    true,  // CHAR_BYTE
    true,  // CODESCALAR
    true,  // ADD_CARRY_CHAIN
    false,  // V850_INDIRECT_BRANCH
    true,  // FASTFAIL_NORETURN
    true,  // DECODE_HALT
    true,  // MSVC_FTOL
    true,  // TAIL_CALL_JUMPS
    true,  // TAIL_CALL_FRAME
    true,  // TAIL_CALL_SAVED
    true,  // CALL_TRAMPOLINE
    true,  // CALL_POP_RET
    true,  // ENTRY_RET_DISPATCH
    true,  // PUSH_IMMEDIATE_RET
    true,  // REMOVE_CLEANUP_CODE
    false,  // LINUX_SYSCALL
    false,  // MSVC_STR_APPEND
    false,  // SWITCH_SELECTOR_GUARD
    true,  // FUNCBOUND_FLOW
    true,  // MAPPED_FLOW_BOUNDARY
    true,  // OVERLAP_BRANCH
    true,  // NORETURN_EXTERN_CALLS
    false,  // SPARC_STRUCT_RETURN
    true,  // OV_LESS_SIMPLIFY
    true,  // FOLD_BOOLEAN_MASK
    true,  // CANCEL_BYTE_ARITHMETIC
    true,  // RET_SPLIT_GLOBAL
    true,  // SIMD_LANE_FOLD
    true,  // CONST_SPACE_LOAD_FOLD
    true,  // INPUT_VARNODE_ADJUST
    true,  // RET_INPUT_HALF
    true,  // RET_PUSHED_HALF
    true,  // NORETURN_RET_USE
    true,  // ZERO_IDIOM_USE
    true,  // EXCLUSIVE_ARG_USE
    true,  // CALL_RET_PAIR
    true,  // CONDEXE_BLOCK_PLACEMENT
    true,  // DYNAMIC_HASH_MAXDUP_HIGH
    true,  // MODEL_STACK_PROBE_LOOP
    true,  // FOLD_FLAG_COMPARE
    false,  // SWITCH_MODULO_BOUND
    false,  // CONST_SELECT_JUMP
    false,  // SWITCH_GUARD_BOUND
    true,  // SWITCH_SHARED_CASE
    true,  // SWITCH_MULTI_PRED
    false,  // UNROLLED_GUARD
    true,  // JUMPTABLE_SHARE_PARTIAL
    true,  // NORETURN_EXTERN_MATCH
    false,  // STACK_ALIAS_DEADSTORE
    true,  // RECOVER_ARRAY_STRIDE
    true,  // RECOVER_LOWERED_SWITCH
    true,  // LOWERED_SWITCH_LABELS
    true,  // LOWERED_SWITCH_VALUE_CHECK
    true,  // LOWERED_SWITCH_EXACT
    true,  // LOWERED_SWITCH_EVERY_HEAD
    true,  // CALLSITE_STACK_ARGS
    true,  // COOKIE_SCRAMBLE
    true,  // END_PTR_BOUND
    true,  // MUL_BLOB
    true,  // CALLEE_POP
    true,  // CALLEE_PROTO_STACK
    true,  // ARG_CLOBBER
    true,  // CALLEE_DEAD_ARG
    true,  // CALLEE_PRESERVES
    true,  // CALLEE_RET_PRESERVES
    true,  // CALLEE_SCRATCH_BODY
    true,  // INDIRECT_ANCHOR
    true,  // INPUT_PARAM_GAP
    true,  // STACK_ARG_GAP
    true,  // VARARG_STACK_ARGS
    true,  // CALLEE_ARITY
    true,  // CALLEE_ARITY_FWD
    true,  // CALLEE_ARITY_LIVE
    true,  // CALLEE_ARITY_BODY
    true,  // CALLEE_ARITY_CUT
    true,  // CALLEE_ARITY_SCRATCH
    true,  // LOAD_GUARD_RANGE
    true,  // TIED_STORE_KEEP
    true,  // LOOP_COUNTER_STORE
    true,  // TIED_PHI_TRIM
    true,  // SPLIT_STORE_KEEP
    true,  // REGION_STRUCTURE
    true,  // REGION_LOOP_REFINE
    false,  // REGION_EDGE_ORDER
    true,  // REDUCE_RETURN_GOTOS
    true,  // FLATTEN_IFELSE
    true,  // REVERT_CROSS_JUMPS
    true,  // DUP_RETURN_CALL_TAILS
    true,  // DEDUP_ITE_TAIL
    true,  // ITEREGION
    false,  // ITEEXPR
    true,  // ITEBOOLEAN
    true,  // ITECONDLIST
    true,  // DUPLICATE_SHARED_RETURNS
    true,  // RETURNDUP_ORCHAIN
    true,  // EARLY_RETURN
    true,  // SWITCH_RETURN
    true,  // RECOVER_LOOP_BREAK
    true,  // FOLD_CALL_RETURNS
    true,  // FOLD_CALL_RET_PHI
    true,  // HIDE_SHADOW
    true,  // STRIP_STACK_GUARD
    true,  // STRIP_SECURITY_CHECK
    true,  // BRANCH_FLIP
    true,  // NAME_STYLE_ANGR
    true,  // DEDUP_VAR_DECLS
    true,  // PARAM_REF_DECL
    true,  // DECL_HIGH_TYPE
    true,  // REALTYPES
    false,  // CTYPES
    true,  // FRAMELAYOUT
    true,  // BYTE_HONEST
    false,  // VOIDTAILRETURN
    false,  // CORTEXMPRIV
    true,  // PRESENT_LESSEQUAL
    true,  // PRESERVE_THUMB_FUNCPTR
    true,  // ANALYSIS_NORETURN_KNOWN
    true,  // ANALYSIS_PEIMPORTCALL
    true,  // ANALYSIS_LIBPROTO
    true,  // ANALYSIS_LIBCSIGS
    true,  // ANALYSIS_LIBCTYPES
    false,  // ANALYSIS_LIBCTYPES_GLIBC
    true,  // ANALYSIS_WIN32SIGS
    true,  // ANALYSIS_DECLAREDLIBCPROTO
    true,  // ANALYSIS_STRINGS
    true,  // ANALYSIS_WIDESTRINGS
    true,  // ANALYSIS_ENTRY_DISC
    false,  // ANALYSIS_EH_FRAME_FULL
    true,  // ANALYSIS_UNMAPPEDENTRY
    true,  // ANALYSIS_PPCLOCALENTRY
    true,  // ANALYSIS_PICBASE
    true,  // ANALYSIS_ENTRYMAINPROTO
    true,  // ANALYSIS_MACHOMAIN
    true,  // ANALYSIS_ARMLIBCMAIN
    true,  // ANALYSIS_ELFMAIN
    true,  // ANALYSIS_FDEINTERIOR
    true,  // ANALYSIS_PDATAINTERIOR
    true,  // ANALYSIS_PDBINTERIOR
    false,  // ANALYSIS_FUNCSTART_PATTERNS
    false,  // ANALYSIS_CORTEXMVECTORS
    false,  // ANALYSIS_PTRENTRY
    false,  // ANALYSIS_POOLENTRY
    true,  // ANALYSIS_ARM_MARKERS
    true,  // ANALYSIS_ENTRYTHUMBFLOW
    true,  // ANALYSIS_MIPS_GP
    true,  // ANALYSIS_I386_PIE_PLT
    true,  // ANALYSIS_RELOCREBASE
    true,  // ANALYSIS_DYNRELOCS
    true,  // ANALYSIS_PDATACHAINED
    true,  // ANALYSIS_REXTHUNK
    true,  // ANALYSIS_SYMBOLNAMEREPAIR
    true,  // ANALYSIS_MSVCFPCONST
    true,  // ANALYSIS_MIPS_ISA
    true,  // ANALYSIS_DWARF
    true,  // ANALYSIS_DATASYMS
    false,  // ANALYSIS_DWARF_LINES
    true,  // ANALYSIS_CPPPROTO
    true,  // ANALYSIS_TYPEDEPTH
    true,  // ANALYSIS_DWARFSTRUCTS
    true,  // ANALYSIS_DWARFVARIANTS
    true,  // ANALYSIS_CALLFIXUP
    false,  // ANALYSIS_ADDRTABLE
    false,  // ANALYSIS_OPERAND_REFS
    false,  // ANALYSIS_LISTING
    false,  // ANALYSIS_FAST_FUNCDISC
    true,  // ANALYSIS_RAWDISCOVER
    true,  // ANALYSIS_NORETURN_DISC
    true,  // ANALYSIS_NORETURN_DISCSTRICT
    true,  // ANALYSIS_NORETURN_PROPAGATE
    true,  // ANALYSIS_NORETURN_ERROR
    true,  // ANALYSIS_NORETURN_REACH
    false,  // ANALYSIS_FID
    false,  // ANALYSIS_RTTI
    false,  // ANALYSIS_ITANIUMRTTI
    false,  // ANALYSIS_AIF
    false,  // ANALYSIS_AIFSTRICT
    false,  // ANALYSIS_AIFCORROBORATE
    false,  // ANALYSIS_TAILCALLENTRY
    true,  // ANALYSIS_GOPCLNTAB
    false,  // ANALYSIS_OBJC
    true,  // ANALYSIS_PDB
    false,  // MACHO_ARM64E
    true,  // EVALCURRENTPROTO
    false,  // CHAR_PTR
    false,  // NUL_TERMINATOR
    false,  // GUARD_ARM
    false,  // LOOP_COND_HOIST
    false,  // PARAM_COPY_HOIST
    false,  // MARK_INDIRECT_ONLY
    false,  // STRIP_MSVC_STACK_GUARD
    false,  // ANALYSIS_IFUNCFPRET
];

/// `on` or `off`, written to one switch.
pub const TOGGLE: u8 = 0;

/// `on` or `off`, written to one switch and told to the loader, which has run
/// before any option is applied.
pub const LOADER_TOGGLE: u8 = 1;

/// Read by the option's own parser as a truth value, written to one switch.
pub const PARSED_FLAG: u8 = 2;

/// Read by the option's own parser as a number, written to one level.
pub const PARSED_LEVEL: u8 = 3;

/// Read by the option's own parser as a truth value, written to the printer.
pub const PRINT_FLAG: u8 = 4;

/// Read by the option's own parser as a text: the region to outline.
pub const OUTLINE: u8 = 5;

/// Read by the option's own parser: the ceiling on the scopes in a symbol name.
pub const NAME_BOUND: u8 = 6;

/// The characters that a symbol name may hold.
pub const NAME_CHARS: u8 = 7;

/// How library aggregates are laid out.
pub const LIBC_TYPES: u8 = 8;

/// `on` or `off`, told to the loader only.
pub const RELOC_OBJECTS: u8 = 9;

/// References to an expression before it gets a variable of its own.
pub const MAX_IMPLIED_REF: usize = 0;

/// Duplications of a term before it gets a variable of its own.
pub const MAX_TERM_DUPLICATION: usize = 1;

/// Two-register returns of Rust code: 0 off, 1 on a detected image, 2 always.
pub const RUST_ABI: usize = 2;

/// Guards for partly overlapping call ranges: 0 off, 1 inputs, 2 both.
pub const CALL_OVERLAP: usize = 3;

/// Spills tolerated in argument trials: 0 none, 1 pairs, 2 any.
pub const SPILL_ARG_TRIAL: usize = 4;

/// Guards for indexed stack access: 0 none, 1 loads, 2 loads and stores.
pub const INDEX_ALIAS_GUARD: usize = 5;

/// Printed-width budget of condition folding; 0 switches it off.
pub const COND_FOLD: usize = 6;

/// Handling of a decoded `int3`: 0 off, 1 warn, 2 halt.
pub const INT3_PAD: usize = 7;

/// Register effects of `SYSCALL`: 0 none, 1 proven, 2 the whole calling convention.
pub const X64_SYSCALL: usize = 8;

/// Typing of the thread environment block: 0 off, 1 on a proven image, 2 on.
pub const PEB_NAMES: usize = 9;

/// Structures made up from offsets: 0 off, 1 over parameters.
pub const STRUCT_SYNTH: usize = 10;

/// Signedness of declarations: 0 as inferred, 1 rounded from use.
pub const SIGNEDNESS: usize = 11;

/// Pointers inferred from use: 0 off, 1 as `void *`.
pub const PTR_FROM_USE: usize = 12;

/// Callee-first order: 0 off, 1 states types, 2 locks them.
pub const PROTOORDER: usize = 13;

/// Characters kept in a symbol name: 0 all, 1 the safe ones, 2 identifiers.
pub const ANALYSIS_SYMBOLNAMECHARS: usize = 14;

/// Signatures read off mangled names: 0 off, 1 proven, 2 inferred.
pub const ANALYSIS_CPPSIG: usize = 15;

/// Format-string resolution: 0 off, 1 at load time, 2 full.
pub const ANALYSIS_FORMATSTRING: usize = 16;

/// How many levels there are.
pub const LEVEL_COUNT: usize = 17;

/// The value that a reset gives each level.
pub const LEVEL_DEFAULTS: [i32; 17] = [
    2,  // MAX_IMPLIED_REF
    2,  // MAX_TERM_DUPLICATION
    0,  // RUST_ABI
    0,  // CALL_OVERLAP
    0,  // SPILL_ARG_TRIAL
    1,  // INDEX_ALIAS_GUARD
    0,  // COND_FOLD
    1,  // INT3_PAD
    0,  // X64_SYSCALL
    1,  // PEB_NAMES
    1,  // STRUCT_SYNTH
    1,  // SIGNEDNESS
    1,  // PTR_FROM_USE
    1,  // PROTOORDER
    1,  // ANALYSIS_SYMBOLNAMECHARS
    1,  // ANALYSIS_CPPSIG
    1,  // ANALYSIS_FORMATSTRING
];

/// Printer switch of option `arraynotation`.
pub const ARRAY_NOTATION: usize = 0;

/// Printer switch of option `truthycond`.
pub const TRUTHY_COND: usize = 1;

/// Printer switch of option `braceelide`.
pub const BRACE_ELIDE: usize = 2;

/// Printer switch of option `warnstyle`.
pub const WARN_INLINE: usize = 3;

/// Printer switch of option `arraycoverwidth`.
pub const ARRAY_COVER_WIDTH: usize = 4;

/// Printer switch of option `emptystrconst`.
pub const EMPTY_STR_CONST: usize = 5;

/// Printer switch of option `structdefs`.
pub const STRUCT_DEFS: usize = 6;

/// How many printer switches there are.
pub const PRINT_FLAG_COUNT: usize = 7;

/// How deep the scopes of one symbol name may nest unless the option says otherwise.
pub const DEFAULT_SCOPE_DEPTH: usize = 256;

/// The options: name, how the value is read, the setting, the label.
pub const KUNA_OPTIONS: [(&'static str, u8, usize, &'static str); 224] = [
    ("addcarrychain", TOGGLE, ADD_CARRY_CHAIN, "Carry-chain wide-add recovery"),
    ("addrtable", TOGGLE, ANALYSIS_ADDRTABLE, "Address-table analysis pass"),
    ("aif", TOGGLE, ANALYSIS_AIF, "Aggressive Instruction Finder gap-walk Listing consumer"),
    ("aifcorroborate", TOGGLE, ANALYSIS_AIFCORROBORATE, "AIF accept corroboration test (GH-313)"),
    ("aifstrict", TOGGLE, ANALYSIS_AIFSTRICT, "AIF gap-cursor aligned slide (GH-299)"),
    ("argclobber", PARSED_FLAG, ARG_CLOBBER, ""),
    ("arm_markers", TOGGLE, ANALYSIS_ARM_MARKERS, "ARM/Thumb decode-mode marker pass"),
    ("armlibcmain", TOGGLE, ANALYSIS_ARMLIBCMAIN, "non-PIE ARM crt1 _start->main recovery"),
    ("arraycoverwidth", PRINT_FLAG, ARRAY_COVER_WIDTH, ""),
    ("arraynotation", PRINT_FLAG, ARRAY_NOTATION, ""),
    ("arraystride", TOGGLE, RECOVER_ARRAY_STRIDE, "Strided-induction array recovery"),
    ("boolbyte", TOGGLE, BOOL_BYTE, "truth-valued byte typing"),
    ("booleanmask", TOGGLE, FOLD_BOOLEAN_MASK, "Boolean sign-mask folding"),
    ("braceelide", PRINT_FLAG, BRACE_ELIDE, ""),
    ("branchflip", TOGGLE, BRANCH_FLIP, "Negated-guard branch flipping for linearity"),
    ("bytehonest", TOGGLE, BYTE_HONEST, "uncommitted-byte width reporting"),
    ("calleearity", PARSED_FLAG, CALLEE_ARITY, ""),
    ("calleearitybody", PARSED_FLAG, CALLEE_ARITY_BODY, ""),
    ("calleearitycut", PARSED_FLAG, CALLEE_ARITY_CUT, ""),
    ("calleearityfwd", PARSED_FLAG, CALLEE_ARITY_FWD, ""),
    ("calleearitylive", PARSED_FLAG, CALLEE_ARITY_LIVE, ""),
    ("calleearityscratch", PARSED_FLAG, CALLEE_ARITY_SCRATCH, ""),
    ("calleedeadarg", PARSED_FLAG, CALLEE_DEAD_ARG, ""),
    ("calleepop", PARSED_FLAG, CALLEE_POP, ""),
    ("calleepreserves", PARSED_FLAG, CALLEE_PRESERVES, ""),
    ("calleeprotostack", PARSED_FLAG, CALLEE_PROTO_STACK, ""),
    ("calleeretpreserves", PARSED_FLAG, CALLEE_RET_PRESERVES, ""),
    ("calleescratchbody", PARSED_FLAG, CALLEE_SCRATCH_BODY, ""),
    ("callfixup", TOGGLE, ANALYSIS_CALLFIXUP, "Call-fixup analysis pass"),
    ("calloverlap", PARSED_LEVEL, CALL_OVERLAP, ""),
    ("callpopret", TOGGLE, CALL_POP_RET, "Return-address-popping call transfer flow-through"),
    ("callretpair", TOGGLE, CALL_RET_PAIR, "Two-register CALL output completion"),
    ("callsitestackargs", PARSED_FLAG, CALLSITE_STACK_ARGS, ""),
    ("calltrampoline", TOGGLE, CALL_TRAMPOLINE, "Return-address-discarding call trampoline flow-through"),
    ("cancelbytearithmetic", PARSED_FLAG, CANCEL_BYTE_ARITHMETIC, ""),
    ("charbyte", TOGGLE, CHAR_BYTE, "char-pointer byte typing"),
    ("charptr", TOGGLE, CHAR_PTR, "character-pointer evidence"),
    ("cleanupcode", TOGGLE, REMOVE_CLEANUP_CODE, "Rust drop/deallocate call removal"),
    ("codescalar", TOGGLE, CODESCALAR, "code-pointee scalar-value guard"),
    ("compareform", PARSED_FLAG, PRESENT_LESSEQUAL, ""),
    ("condexeplace", TOGGLE, CONDEXE_BLOCK_PLACEMENT, "Conditional-const COPY block placement"),
    ("condfold", PARSED_LEVEL, COND_FOLD, ""),
    ("constselectjump", TOGGLE, CONST_SELECT_JUMP, "Constant-select indirect branch recovery"),
    ("constspaceload", PARSED_FLAG, CONST_SPACE_LOAD_FOLD, ""),
    ("cookiescramble", PARSED_FLAG, COOKIE_SCRAMBLE, ""),
    ("cortexmpriv", TOGGLE, CORTEXMPRIV, "Cortex-M privileged-mode guard folding"),
    ("cortexmvectors", TOGGLE, ANALYSIS_CORTEXMVECTORS, "Widened ARM Cortex-M vector-table signature"),
    ("cppproto", TOGGLE, ANALYSIS_CPPPROTO, "DWARF C++ prototype recovery arm"),
    ("cppsig", PARSED_LEVEL, ANALYSIS_CPPSIG, ""),
    ("crossjumprevert", PARSED_FLAG, REVERT_CROSS_JUMPS, ""),
    ("ctypes", TOGGLE, CTYPES, "valid-C core type spelling"),
    ("datasyms", TOGGLE, ANALYSIS_DATASYMS, "ELF data-symbol (STT_OBJECT) naming"),
    ("declaredlibcproto", TOGGLE, ANALYSIS_DECLAREDLIBCPROTO, "Declared-name libc prototype lookup"),
    ("declhightype", PARSED_FLAG, DECL_HIGH_TYPE, ""),
    ("decodehalt", TOGGLE, DECODE_HALT, "Decode-failure halt reporting"),
    ("dedupitetail", PARSED_FLAG, DEDUP_ITE_TAIL, ""),
    ("dedupvardecls", PARSED_FLAG, DEDUP_VAR_DECLS, ""),
    ("dwarf", TOGGLE, ANALYSIS_DWARF, "DWARF recovery analysis pass"),
    ("dwarf_lines", TOGGLE, ANALYSIS_DWARF_LINES, "DWARF .debug_line source-line comment pass"),
    ("dwarfstructs", LOADER_TOGGLE, ANALYSIS_DWARFSTRUCTS, "DWARF aggregate-layout import"),
    ("dwarfvariants", LOADER_TOGGLE, ANALYSIS_DWARFVARIANTS, "DWARF variant-part import"),
    ("dynamichashmax", TOGGLE, DYNAMIC_HASH_MAXDUP_HIGH, "DynamicHash collision budget"),
    ("dynrelocs", LOADER_TOGGLE, ANALYSIS_DYNRELOCS, "linked-image dynamic-relocation application"),
    ("earlyreturn", PARSED_FLAG, EARLY_RETURN, ""),
    ("eh_frame_full", TOGGLE, ANALYSIS_EH_FRAME_FULL, ".eh_frame LSDA landing-pad discovery"),
    ("elfmain", TOGGLE, ANALYSIS_ELFMAIN, "ELF libc-start main naming + prototype"),
    ("emptystrconst", PRINT_FLAG, EMPTY_STR_CONST, ""),
    ("endptrbound", PARSED_FLAG, END_PTR_BOUND, ""),
    ("entry_disc", TOGGLE, ANALYSIS_ENTRY_DISC, "Entry-discovery analysis pass"),
    ("entrymainproto", TOGGLE, ANALYSIS_ENTRYMAINPROTO, "PE CRT entry-function prototype recovery"),
    ("entryretdispatch", TOGGLE, ENTRY_RET_DISPATCH, "Entry-point RET-dispatch call-chain recovery"),
    ("entrythumbflow", TOGGLE, ANALYSIS_ENTRYTHUMBFLOW, "Entry-reachable Thumb context walk"),
    ("evalcurrentproto", PARSED_FLAG, EVALCURRENTPROTO, ""),
    ("exclusivearguse", TOGGLE, EXCLUSIVE_ARG_USE, "Mutually-exclusive-path dereference in input trials"),
    ("fast_funcdisc", TOGGLE, ANALYSIS_FAST_FUNCDISC, "Fast whole-project function discovery"),
    ("fastfailnoreturn", TOGGLE, FASTFAIL_NORETURN, "Windows int 0x29 (__fastfail) no-return"),
    ("fdeinterior", TOGGLE, ANALYSIS_FDEINTERIOR, ".eh_frame FDE-interior entry suppression"),
    ("fid", TOGGLE, ANALYSIS_FID, "FID fingerprint matcher Listing consumer"),
    ("flagcompare", TOGGLE, FOLD_FLAG_COMPARE, "Flag-modelled comparison folding"),
    ("foldcallret", PARSED_FLAG, FOLD_CALL_RETURNS, ""),
    ("foldcallretphi", PARSED_FLAG, FOLD_CALL_RET_PHI, ""),
    ("formatstring", PARSED_LEVEL, ANALYSIS_FORMATSTRING, ""),
    ("framelayout", TOGGLE, FRAMELAYOUT, "recovered stack-frame reporting"),
    ("funcboundflow", TOGGLE, FUNCBOUND_FLOW, "Fall-through bound at function entries"),
    ("funcstart_patterns", TOGGLE, ANALYSIS_FUNCSTART_PATTERNS, "Full byte-pattern function-start pass"),
    ("gopclntab", TOGGLE, ANALYSIS_GOPCLNTAB, "Go pclntab function-name recovery pass"),
    ("gotoreduce", PARSED_FLAG, REDUCE_RETURN_GOTOS, ""),
    ("guardarm", PARSED_FLAG, GUARD_ARM, ""),
    ("hideshadow", PARSED_FLAG, HIDE_SHADOW, ""),
    ("i386_pie_plt", LOADER_TOGGLE, ANALYSIS_I386_PIE_PLT, "i386-PIE PLT-stub decode"),
    ("ifelseflatten", PARSED_FLAG, FLATTEN_IFELSE, ""),
    ("ifuncfpret", LOADER_TOGGLE, ANALYSIS_IFUNCFPRET, "IFUNC PLT-stub naming"),
    ("impliedrefs", PARSED_LEVEL, MAX_IMPLIED_REF, ""),
    ("indexaliasguard", PARSED_LEVEL, INDEX_ALIAS_GUARD, ""),
    ("indirectanchor", PARSED_FLAG, INDIRECT_ANCHOR, ""),
    ("indirectonly", PARSED_FLAG, MARK_INDIRECT_ONLY, ""),
    ("inferfuncentry", TOGGLE, INFER_FUNCENTRY, "Function-entry constant inference"),
    ("inputparamgap", PARSED_FLAG, INPUT_PARAM_GAP, ""),
    ("inputvarnodeadjust", TOGGLE, INPUT_VARNODE_ADJUST, "Overlapping input-varnode adjustment"),
    ("int3pad", PARSED_LEVEL, INT3_PAD, ""),
    ("itaniumrtti", TOGGLE, ANALYSIS_ITANIUMRTTI, "Itanium (GCC/Clang) RTTI / vtable recovery pass"),
    ("iteboolean", PARSED_FLAG, ITEBOOLEAN, ""),
    ("itecondlist", PARSED_FLAG, ITECONDLIST, ""),
    ("iteexpr", TOGGLE, ITEEXPR, "Computed-expression arm ?: recovery (iteregion extension)"),
    ("iteregion", PARSED_FLAG, ITEREGION, ""),
    ("jtsharepartial", TOGGLE, JUMPTABLE_SHARE_PARTIAL, "Shared jump-table partial sub-decompilation"),
    ("libcsigs", TOGGLE, ANALYSIS_LIBCSIGS, "Measured libc signature extension"),
    ("libctypes", LIBC_TYPES, ANALYSIS_LIBCTYPES, "Named libc aggregate types"),
    ("libproto", TOGGLE, ANALYSIS_LIBPROTO, "Library-prototype analysis pass"),
    ("linuxsyscall", TOGGLE, LINUX_SYSCALL, "Linux int 0x80 syscall naming"),
    ("listing", TOGGLE, ANALYSIS_LISTING, "Listing/xref disassembly tier"),
    ("litpoolconst", TOGGLE, LITPOOLCONST, "In-code literal-pool constant folding"),
    ("loadguardrange", TOGGLE, LOAD_GUARD_RANGE, "Indexed-stack guard ValueSet range refinement"),
    ("loopbreak_recovery", PARSED_FLAG, RECOVER_LOOP_BREAK, ""),
    ("loopcondhoist", PARSED_FLAG, LOOP_COND_HOIST, ""),
    ("loopcounterstore", TOGGLE, LOOP_COUNTER_STORE, "Frame-slot loop-counter store brake"),
    ("loweredswitch", PARSED_FLAG, RECOVER_LOWERED_SWITCH, ""),
    ("loweredswitchexact", TOGGLE, LOWERED_SWITCH_EXACT, "Exact lowered-switch recovery"),
    ("loweredswitchheads", TOGGLE, LOWERED_SWITCH_EVERY_HEAD, "Lowered-switch detection from every cascade head"),
    ("loweredswitchlabels", PARSED_FLAG, LOWERED_SWITCH_LABELS, ""),
    ("loweredswitchvalue", TOGGLE, LOWERED_SWITCH_VALUE_CHECK, "Lowered-switch dispatch value check"),
    ("macho-arm64e", TOGGLE, MACHO_ARM64E, "Mach-O arm64e Apple-Silicon spec selection"),
    ("machomain", TOGGLE, ANALYSIS_MACHOMAIN, "Mach-O LC_MAIN entry naming + prototype"),
    ("mappedflowboundary", TOGGLE, MAPPED_FLOW_BOUNDARY, "Mapped ELF x86 flow boundaries"),
    ("memsetrecover", PARSED_FLAG, MEMSET_RECOVER, ""),
    ("mips_gp", TOGGLE, ANALYSIS_MIPS_GP, "MIPS $gp-recovery (t9 tracking) pass"),
    ("mips_isa", TOGGLE, ANALYSIS_MIPS_ISA, "MIPS16 ISA_MODE decode-mode marker pass"),
    ("msvcfpconst", LOADER_TOGGLE, ANALYSIS_MSVCFPCONST, "MSVC __real@ FP-constant recovery"),
    ("msvcftol", TOGGLE, MSVC_FTOL, "MSVC __ftol-family call-fixup"),
    ("msvcstackguard", TOGGLE, STRIP_MSVC_STACK_GUARD, "MSVC /GS frame-cookie stripping"),
    ("msvcstrappend", TOGGLE, MSVC_STR_APPEND, "MSVC std::string inlined append collapsing"),
    ("mulblob", PARSED_FLAG, MUL_BLOB, ""),
    ("namestyle", PARSED_FLAG, NAME_STYLE_ANGR, ""),
    ("noreturn_disc", TOGGLE, ANALYSIS_NORETURN_DISC, "Discovered-no-return Listing consumer"),
    ("noreturn_discstrict", TOGGLE, ANALYSIS_NORETURN_DISCSTRICT, "Discovered-no-return positive-evidence-only tally"),
    ("noreturn_error", TOGGLE, ANALYSIS_NORETURN_ERROR, "error(nonzero,...) conditional no-return recognizer"),
    ("noreturn_extern", TOGGLE, NORETURN_EXTERN_CALLS, "Name-based extern no-return"),
    ("noreturn_externmatch", TOGGLE, NORETURN_EXTERN_MATCH, "Name-matched extern no-return"),
    ("noreturn_known", TOGGLE, ANALYSIS_NORETURN_KNOWN, "No-return-known analysis pass"),
    ("noreturn_propagate", TOGGLE, ANALYSIS_NORETURN_PROPAGATE, "No-return propagation Listing consumer"),
    ("noreturn_reach", TOGGLE, ANALYSIS_NORETURN_REACH, "CFG-reachability no-return rule (Ghidra targetOnlyCallsNoReturn)"),
    ("noreturnretuse", TOGGLE, NORETURN_RET_USE, "No-return call argument use in return trials"),
    ("nulterminator", PARSED_FLAG, NUL_TERMINATOR, ""),
    ("objc", TOGGLE, ANALYSIS_OBJC, "Mach-O Objective-C metadata recovery pass"),
    ("operand_refs", TOGGLE, ANALYSIS_OPERAND_REFS, "Scalar/operand reference-markup pass"),
    ("orchain", PARSED_FLAG, RETURNDUP_ORCHAIN, ""),
    ("outline", OUTLINE, 0, ""),
    ("overlapbranch", TOGGLE, OVERLAP_BRANCH, "Overlapping-branch fall-through truncation"),
    ("ovlesssimplify", TOGGLE, OV_LESS_SIMPLIFY, "OV-flag signed-compare simplification"),
    ("paramcopyhoist", PARSED_FLAG, PARAM_COPY_HOIST, ""),
    ("paramrefdecl", TOGGLE, PARAM_REF_DECL, "address-taken parameter re-declaration guard"),
    ("pdatachained", LOADER_TOGGLE, ANALYSIS_PDATACHAINED, "PE chained-UNWIND_INFO .pdata entry suppression"),
    ("pdatainterior", TOGGLE, ANALYSIS_PDATAINTERIOR, ".pdata RUNTIME_FUNCTION-interior entry suppression"),
    ("pdb", TOGGLE, ANALYSIS_PDB, "PE PDB metadata recovery pass"),
    ("pdbinterior", TOGGLE, ANALYSIS_PDBINTERIOR, "PDB procedure-interior entry suppression"),
    ("pebnames", PARSED_LEVEL, PEB_NAMES, ""),
    ("peimportcall", TOGGLE, ANALYSIS_PEIMPORTCALL, "PE/Mach-O import-slot call binding"),
    ("picbase", TOGGLE, ANALYSIS_PICBASE, "PIC base-register folding in the xref index"),
    ("poolentry", TOGGLE, ANALYSIS_POOLENTRY, "ARM literal-pool inference (entry recall + AIF phantom suppression)"),
    ("ppclocalentry", TOGGLE, ANALYSIS_PPCLOCALENTRY, "PPC64 ELFv2 local-entry entry suppression"),
    ("protoorder", PARSED_LEVEL, PROTOORDER, ""),
    ("ptrdepthcap", TOGGLE, PTRDEPTHCAP, "inferred pointer-nesting cap"),
    ("ptrentry", TOGGLE, ANALYSIS_PTRENTRY, "Pointer-referenced ARM function entries"),
    ("ptrfromuse", PARSED_LEVEL, PTR_FROM_USE, ""),
    ("pushimmediateret", TOGGLE, PUSH_IMMEDIATE_RET, "Push-immediate RET tail-transfer recovery"),
    ("rawdiscover", TOGGLE, ANALYSIS_RAWDISCOVER, "Raw-image recursive function discovery"),
    ("realtypes", TOGGLE, REALTYPES, "Real-C-type rendering for unknowns"),
    ("regionedgeorder", TOGGLE, REGION_EDGE_ORDER, "Region structurer H2 post-dominator + dominance-tiered edge-virtualization ordering"),
    ("regionlooprefine", TOGGLE, REGION_LOOP_REFINE, "Region structurer multi-exit/irreducible loop-successor refinement"),
    ("regionstructure", PARSED_FLAG, REGION_STRUCTURE, ""),
    ("relocobjects", RELOC_OBJECTS, 0, "ET_REL relocatable-object loading"),
    ("relocrebase", LOADER_TOGGLE, ANALYSIS_RELOCREBASE, "relocatable-object analysis rebase"),
    ("retinputhalf", TOGGLE, RET_INPUT_HALF, "Returned input-parameter half retention"),
    ("retpushedhalf", TOGGLE, RET_PUSHED_HALF, "Push-only register placement rejection"),
    ("retsplitglobal", PARSED_FLAG, RET_SPLIT_GLOBAL, ""),
    ("returndup", PARSED_FLAG, DUPLICATE_SHARED_RETURNS, ""),
    ("returnpair", PARSED_FLAG, RETURN_SINGLE, ""),
    ("rexthunk", LOADER_TOGGLE, ANALYSIS_REXTHUNK, "x86-64 PE REX-prefixed import-thunk rejection"),
    ("rodatastring", PARSED_FLAG, RODATA_STRING, ""),
    ("rtti", TOGGLE, ANALYSIS_RTTI, "MSVC RTTI / vftable class-name recovery pass"),
    ("rustabi", PARSED_LEVEL, RUST_ABI, ""),
    ("securitycheck", TOGGLE, STRIP_SECURITY_CHECK, "Rust security-check branch stripping"),
    ("signedness", PARSED_LEVEL, SIGNEDNESS, ""),
    ("simdlane", PARSED_FLAG, SIMD_LANE_FOLD, ""),
    ("sparcstructret", TOGGLE, SPARC_STRUCT_RETURN, "SPARC struct-return tail recovery"),
    ("spillargtrial", PARSED_LEVEL, SPILL_ARG_TRIAL, ""),
    ("splitstorekeep", TOGGLE, SPLIT_STORE_KEEP, "Refinement-split stack store mark"),
    ("stackalias", TOGGLE, STACK_ALIAS_DEADSTORE, "Stack-pointer-alias dead-store hold"),
    ("stackarggap", PARSED_FLAG, STACK_ARG_GAP, ""),
    ("stackguard", TOGGLE, STRIP_STACK_GUARD, "Stack-guard canary stripping"),
    ("stackprobeloop", PARSED_FLAG, MODEL_STACK_PROBE_LOOP, ""),
    ("strings", TOGGLE, ANALYSIS_STRINGS, "String-literal analysis pass"),
    ("structdefs", PRINT_FLAG, STRUCT_DEFS, ""),
    ("structsynth", PARSED_LEVEL, STRUCT_SYNTH, ""),
    ("switchguardbound", TOGGLE, SWITCH_GUARD_BOUND, "Switch CBRANCH-guard index bound"),
    ("switchmodbound", TOGGLE, SWITCH_MODULO_BOUND, "Switch modulo/and-mask index bound"),
    ("switchmultipred", TOGGLE, SWITCH_MULTI_PRED, "Switch multi-predecessor unrolled-guard table"),
    ("switchreturn", PARSED_FLAG, SWITCH_RETURN, ""),
    ("switchselector", TOGGLE, SWITCH_SELECTOR_GUARD, "Lowered-switch in-function-selector restriction"),
    ("switchsharedcase", TOGGLE, SWITCH_SHARED_CASE, "Switch loop-carried-guard table"),
    ("symbolnamebound", NAME_BOUND, 0, ""),
    ("symbolnamechars", NAME_CHARS, ANALYSIS_SYMBOLNAMECHARS, "symbol-name character sanitizing"),
    ("symbolnamerepair", LOADER_TOGGLE, ANALYSIS_SYMBOLNAMEREPAIR, "degenerate-symbol-name repair"),
    ("tailcallentry", TOGGLE, ANALYSIS_TAILCALLENTRY, "Tail-call function-entry recovery Listing consumer"),
    ("tailcallframe", TOGGLE, TAIL_CALL_FRAME, "Frame-teardown tail-call recovery"),
    ("tailcalljump", TOGGLE, TAIL_CALL_JUMPS, "Tail-call jump recovery"),
    ("tailcallsaved", TOGGLE, TAIL_CALL_SAVED, "Saved-register restore test for a frame teardown"),
    ("taildup", PARSED_FLAG, DUP_RETURN_CALL_TAILS, ""),
    ("termdup", PARSED_LEVEL, MAX_TERM_DUPLICATION, ""),
    ("thumbfuncptr", TOGGLE, PRESERVE_THUMB_FUNCPTR, "Thumb function-pointer preservation"),
    ("tiedphitrim", TOGGLE, TIED_PHI_TRIM, "Loop-head address-tied input trim"),
    ("tiedstorekeep", TOGGLE, TIED_STORE_KEEP, "Address-tied store copy-propagation brake"),
    ("truthycond", PRINT_FLAG, TRUTHY_COND, ""),
    ("typedepth", LOADER_TOGGLE, ANALYSIS_TYPEDEPTH, "Full-depth DWARF type resolution"),
    ("unmappedentry", TOGGLE, ANALYSIS_UNMAPPEDENTRY, "Unmapped-CALL-target entry suppression"),
    ("unrolledguard", TOGGLE, UNROLLED_GUARD, "Interleaved unrolled-guard jump-table partial-flow recovery"),
    ("v850indirectbranch", TOGGLE, V850_INDIRECT_BRANCH, "V850 indirect-branch reclassification"),
    ("varargstackargs", PARSED_FLAG, VARARG_STACK_ARGS, ""),
    ("voidtailreturn", TOGGLE, VOIDTAILRETURN, "void tail-return elision"),
    ("warnstyle", PRINT_FLAG, WARN_INLINE, ""),
    ("widestrings", TOGGLE, ANALYSIS_WIDESTRINGS, "UTF-16LE width of the string-literal pass"),
    ("win32sigs", TOGGLE, ANALYSIS_WIN32SIGS, "Built-in Win32 API signature table"),
    ("x64syscall", PARSED_LEVEL, X64_SYSCALL, ""),
    ("zeroidiomuse", TOGGLE, ZERO_IDIOM_USE, "Self-cancelling zeroing-idiom use in input trials"),
];

/// How many options there are.
pub const OPTION_COUNT: usize = 224;

/// The row of the option that writes each switch.
pub const FLAG_OPTIONS: [usize; 198] = [
    111,  // LITPOOLCONST
    96,  // INFER_FUNCENTRY
    176,  // RETURN_SINGLE
    124,  // MEMSET_RECOVER
    178,  // RODATA_STRING
    161,  // PTRDEPTHCAP
    11,  // BOOL_BYTE
    35,  // CHAR_BYTE
    38,  // CODESCALAR
    0,  // ADD_CARRY_CHAIN
    216,  // V850_INDIRECT_BRANCH
    75,  // FASTFAIL_NORETURN
    54,  // DECODE_HALT
    128,  // MSVC_FTOL
    205,  // TAIL_CALL_JUMPS
    204,  // TAIL_CALL_FRAME
    206,  // TAIL_CALL_SAVED
    33,  // CALL_TRAMPOLINE
    30,  // CALL_POP_RET
    70,  // ENTRY_RET_DISPATCH
    164,  // PUSH_IMMEDIATE_RET
    37,  // REMOVE_CLEANUP_CODE
    109,  // LINUX_SYSCALL
    130,  // MSVC_STR_APPEND
    198,  // SWITCH_SELECTOR_GUARD
    83,  // FUNCBOUND_FLOW
    123,  // MAPPED_FLOW_BOUNDARY
    147,  // OVERLAP_BRANCH
    136,  // NORETURN_EXTERN_CALLS
    184,  // SPARC_STRUCT_RETURN
    148,  // OV_LESS_SIMPLIFY
    12,  // FOLD_BOOLEAN_MASK
    34,  // CANCEL_BYTE_ARITHMETIC
    174,  // RET_SPLIT_GLOBAL
    183,  // SIMD_LANE_FOLD
    43,  // CONST_SPACE_LOAD_FOLD
    98,  // INPUT_VARNODE_ADJUST
    172,  // RET_INPUT_HALF
    173,  // RET_PUSHED_HALF
    141,  // NORETURN_RET_USE
    223,  // ZERO_IDIOM_USE
    73,  // EXCLUSIVE_ARG_USE
    31,  // CALL_RET_PAIR
    40,  // CONDEXE_BLOCK_PLACEMENT
    61,  // DYNAMIC_HASH_MAXDUP_HIGH
    190,  // MODEL_STACK_PROBE_LOOP
    78,  // FOLD_FLAG_COMPARE
    195,  // SWITCH_MODULO_BOUND
    42,  // CONST_SELECT_JUMP
    194,  // SWITCH_GUARD_BOUND
    199,  // SWITCH_SHARED_CASE
    196,  // SWITCH_MULTI_PRED
    215,  // UNROLLED_GUARD
    105,  // JUMPTABLE_SHARE_PARTIAL
    137,  // NORETURN_EXTERN_MATCH
    187,  // STACK_ALIAS_DEADSTORE
    10,  // RECOVER_ARRAY_STRIDE
    116,  // RECOVER_LOWERED_SWITCH
    119,  // LOWERED_SWITCH_LABELS
    120,  // LOWERED_SWITCH_VALUE_CHECK
    117,  // LOWERED_SWITCH_EXACT
    118,  // LOWERED_SWITCH_EVERY_HEAD
    32,  // CALLSITE_STACK_ARGS
    44,  // COOKIE_SCRAMBLE
    67,  // END_PTR_BOUND
    131,  // MUL_BLOB
    23,  // CALLEE_POP
    25,  // CALLEE_PROTO_STACK
    5,  // ARG_CLOBBER
    22,  // CALLEE_DEAD_ARG
    24,  // CALLEE_PRESERVES
    26,  // CALLEE_RET_PRESERVES
    27,  // CALLEE_SCRATCH_BODY
    94,  // INDIRECT_ANCHOR
    97,  // INPUT_PARAM_GAP
    188,  // STACK_ARG_GAP
    217,  // VARARG_STACK_ARGS
    16,  // CALLEE_ARITY
    19,  // CALLEE_ARITY_FWD
    20,  // CALLEE_ARITY_LIVE
    17,  // CALLEE_ARITY_BODY
    18,  // CALLEE_ARITY_CUT
    21,  // CALLEE_ARITY_SCRATCH
    112,  // LOAD_GUARD_RANGE
    211,  // TIED_STORE_KEEP
    115,  // LOOP_COUNTER_STORE
    210,  // TIED_PHI_TRIM
    186,  // SPLIT_STORE_KEEP
    169,  // REGION_STRUCTURE
    168,  // REGION_LOOP_REFINE
    167,  // REGION_EDGE_ORDER
    86,  // REDUCE_RETURN_GOTOS
    90,  // FLATTEN_IFELSE
    49,  // REVERT_CROSS_JUMPS
    207,  // DUP_RETURN_CALL_TAILS
    55,  // DEDUP_ITE_TAIL
    104,  // ITEREGION
    103,  // ITEEXPR
    101,  // ITEBOOLEAN
    102,  // ITECONDLIST
    175,  // DUPLICATE_SHARED_RETURNS
    145,  // RETURNDUP_ORCHAIN
    63,  // EARLY_RETURN
    197,  // SWITCH_RETURN
    113,  // RECOVER_LOOP_BREAK
    79,  // FOLD_CALL_RETURNS
    80,  // FOLD_CALL_RET_PHI
    88,  // HIDE_SHADOW
    189,  // STRIP_STACK_GUARD
    181,  // STRIP_SECURITY_CHECK
    14,  // BRANCH_FLIP
    132,  // NAME_STYLE_ANGR
    56,  // DEDUP_VAR_DECLS
    150,  // PARAM_REF_DECL
    53,  // DECL_HIGH_TYPE
    166,  // REALTYPES
    50,  // CTYPES
    82,  // FRAMELAYOUT
    15,  // BYTE_HONEST
    218,  // VOIDTAILRETURN
    45,  // CORTEXMPRIV
    39,  // PRESENT_LESSEQUAL
    209,  // PRESERVE_THUMB_FUNCPTR
    138,  // ANALYSIS_NORETURN_KNOWN
    156,  // ANALYSIS_PEIMPORTCALL
    108,  // ANALYSIS_LIBPROTO
    106,  // ANALYSIS_LIBCSIGS
    107,  // ANALYSIS_LIBCTYPES
    107,  // ANALYSIS_LIBCTYPES_GLIBC
    221,  // ANALYSIS_WIN32SIGS
    52,  // ANALYSIS_DECLAREDLIBCPROTO
    191,  // ANALYSIS_STRINGS
    220,  // ANALYSIS_WIDESTRINGS
    68,  // ANALYSIS_ENTRY_DISC
    64,  // ANALYSIS_EH_FRAME_FULL
    214,  // ANALYSIS_UNMAPPEDENTRY
    159,  // ANALYSIS_PPCLOCALENTRY
    157,  // ANALYSIS_PICBASE
    69,  // ANALYSIS_ENTRYMAINPROTO
    122,  // ANALYSIS_MACHOMAIN
    7,  // ANALYSIS_ARMLIBCMAIN
    65,  // ANALYSIS_ELFMAIN
    76,  // ANALYSIS_FDEINTERIOR
    152,  // ANALYSIS_PDATAINTERIOR
    154,  // ANALYSIS_PDBINTERIOR
    84,  // ANALYSIS_FUNCSTART_PATTERNS
    46,  // ANALYSIS_CORTEXMVECTORS
    162,  // ANALYSIS_PTRENTRY
    158,  // ANALYSIS_POOLENTRY
    6,  // ANALYSIS_ARM_MARKERS
    71,  // ANALYSIS_ENTRYTHUMBFLOW
    125,  // ANALYSIS_MIPS_GP
    89,  // ANALYSIS_I386_PIE_PLT
    171,  // ANALYSIS_RELOCREBASE
    62,  // ANALYSIS_DYNRELOCS
    151,  // ANALYSIS_PDATACHAINED
    177,  // ANALYSIS_REXTHUNK
    202,  // ANALYSIS_SYMBOLNAMEREPAIR
    127,  // ANALYSIS_MSVCFPCONST
    126,  // ANALYSIS_MIPS_ISA
    57,  // ANALYSIS_DWARF
    51,  // ANALYSIS_DATASYMS
    58,  // ANALYSIS_DWARF_LINES
    47,  // ANALYSIS_CPPPROTO
    213,  // ANALYSIS_TYPEDEPTH
    59,  // ANALYSIS_DWARFSTRUCTS
    60,  // ANALYSIS_DWARFVARIANTS
    28,  // ANALYSIS_CALLFIXUP
    1,  // ANALYSIS_ADDRTABLE
    144,  // ANALYSIS_OPERAND_REFS
    110,  // ANALYSIS_LISTING
    74,  // ANALYSIS_FAST_FUNCDISC
    165,  // ANALYSIS_RAWDISCOVER
    133,  // ANALYSIS_NORETURN_DISC
    134,  // ANALYSIS_NORETURN_DISCSTRICT
    139,  // ANALYSIS_NORETURN_PROPAGATE
    135,  // ANALYSIS_NORETURN_ERROR
    140,  // ANALYSIS_NORETURN_REACH
    77,  // ANALYSIS_FID
    179,  // ANALYSIS_RTTI
    100,  // ANALYSIS_ITANIUMRTTI
    2,  // ANALYSIS_AIF
    4,  // ANALYSIS_AIFSTRICT
    3,  // ANALYSIS_AIFCORROBORATE
    203,  // ANALYSIS_TAILCALLENTRY
    85,  // ANALYSIS_GOPCLNTAB
    143,  // ANALYSIS_OBJC
    153,  // ANALYSIS_PDB
    121,  // MACHO_ARM64E
    72,  // EVALCURRENTPROTO
    36,  // CHAR_PTR
    142,  // NUL_TERMINATOR
    87,  // GUARD_ARM
    114,  // LOOP_COND_HOIST
    149,  // PARAM_COPY_HOIST
    95,  // MARK_INDIRECT_ONLY
    129,  // STRIP_MSVC_STACK_GUARD
    91,  // ANALYSIS_IFUNCFPRET
];

/// The row of the option that writes each level.
pub const LEVEL_OPTIONS: [usize; 17] = [
    92,  // MAX_IMPLIED_REF
    208,  // MAX_TERM_DUPLICATION
    180,  // RUST_ABI
    29,  // CALL_OVERLAP
    185,  // SPILL_ARG_TRIAL
    93,  // INDEX_ALIAS_GUARD
    41,  // COND_FOLD
    99,  // INT3_PAD
    222,  // X64_SYSCALL
    155,  // PEB_NAMES
    193,  // STRUCT_SYNTH
    182,  // SIGNEDNESS
    163,  // PTR_FROM_USE
    160,  // PROTOORDER
    201,  // ANALYSIS_SYMBOLNAMECHARS
    48,  // ANALYSIS_CPPSIG
    81,  // ANALYSIS_FORMATSTRING
];

/// The row of the option that writes each of the printer's switches.
pub const PRINT_FLAG_OPTIONS: [usize; 7] = [
    9,  // ARRAY_NOTATION
    212,  // TRUTHY_COND
    13,  // BRACE_ELIDE
    219,  // WARN_INLINE
    8,  // ARRAY_COVER_WIDTH
    66,  // EMPTY_STR_CONST
    192,  // STRUCT_DEFS
];

/// Whether the analysis of a function reads the switch.
pub const FLAG_CARRIED: [bool; 198] = [
    true,  // LITPOOLCONST
    true,  // INFER_FUNCENTRY
    true,  // RETURN_SINGLE
    true,  // MEMSET_RECOVER
    true,  // RODATA_STRING
    true,  // PTRDEPTHCAP
    true,  // BOOL_BYTE
    true,  // CHAR_BYTE
    true,  // CODESCALAR
    true,  // ADD_CARRY_CHAIN
    false,  // V850_INDIRECT_BRANCH
    false,  // FASTFAIL_NORETURN
    false,  // DECODE_HALT
    false,  // MSVC_FTOL
    false,  // TAIL_CALL_JUMPS
    false,  // TAIL_CALL_FRAME
    false,  // TAIL_CALL_SAVED
    false,  // CALL_TRAMPOLINE
    false,  // CALL_POP_RET
    false,  // ENTRY_RET_DISPATCH
    false,  // PUSH_IMMEDIATE_RET
    true,  // REMOVE_CLEANUP_CODE
    true,  // LINUX_SYSCALL
    true,  // MSVC_STR_APPEND
    true,  // SWITCH_SELECTOR_GUARD
    false,  // FUNCBOUND_FLOW
    false,  // MAPPED_FLOW_BOUNDARY
    false,  // OVERLAP_BRANCH
    false,  // NORETURN_EXTERN_CALLS
    false,  // SPARC_STRUCT_RETURN
    true,  // OV_LESS_SIMPLIFY
    true,  // FOLD_BOOLEAN_MASK
    true,  // CANCEL_BYTE_ARITHMETIC
    true,  // RET_SPLIT_GLOBAL
    true,  // SIMD_LANE_FOLD
    true,  // CONST_SPACE_LOAD_FOLD
    true,  // INPUT_VARNODE_ADJUST
    true,  // RET_INPUT_HALF
    true,  // RET_PUSHED_HALF
    true,  // NORETURN_RET_USE
    true,  // ZERO_IDIOM_USE
    true,  // EXCLUSIVE_ARG_USE
    true,  // CALL_RET_PAIR
    true,  // CONDEXE_BLOCK_PLACEMENT
    false,  // DYNAMIC_HASH_MAXDUP_HIGH
    true,  // MODEL_STACK_PROBE_LOOP
    true,  // FOLD_FLAG_COMPARE
    true,  // SWITCH_MODULO_BOUND
    true,  // CONST_SELECT_JUMP
    true,  // SWITCH_GUARD_BOUND
    true,  // SWITCH_SHARED_CASE
    true,  // SWITCH_MULTI_PRED
    true,  // UNROLLED_GUARD
    true,  // JUMPTABLE_SHARE_PARTIAL
    false,  // NORETURN_EXTERN_MATCH
    false,  // STACK_ALIAS_DEADSTORE
    true,  // RECOVER_ARRAY_STRIDE
    true,  // RECOVER_LOWERED_SWITCH
    true,  // LOWERED_SWITCH_LABELS
    true,  // LOWERED_SWITCH_VALUE_CHECK
    true,  // LOWERED_SWITCH_EXACT
    true,  // LOWERED_SWITCH_EVERY_HEAD
    true,  // CALLSITE_STACK_ARGS
    true,  // COOKIE_SCRAMBLE
    true,  // END_PTR_BOUND
    true,  // MUL_BLOB
    true,  // CALLEE_POP
    true,  // CALLEE_PROTO_STACK
    true,  // ARG_CLOBBER
    true,  // CALLEE_DEAD_ARG
    true,  // CALLEE_PRESERVES
    true,  // CALLEE_RET_PRESERVES
    true,  // CALLEE_SCRATCH_BODY
    true,  // INDIRECT_ANCHOR
    true,  // INPUT_PARAM_GAP
    true,  // STACK_ARG_GAP
    true,  // VARARG_STACK_ARGS
    true,  // CALLEE_ARITY
    true,  // CALLEE_ARITY_FWD
    true,  // CALLEE_ARITY_LIVE
    true,  // CALLEE_ARITY_BODY
    true,  // CALLEE_ARITY_CUT
    true,  // CALLEE_ARITY_SCRATCH
    true,  // LOAD_GUARD_RANGE
    true,  // TIED_STORE_KEEP
    true,  // LOOP_COUNTER_STORE
    true,  // TIED_PHI_TRIM
    true,  // SPLIT_STORE_KEEP
    true,  // REGION_STRUCTURE
    true,  // REGION_LOOP_REFINE
    true,  // REGION_EDGE_ORDER
    true,  // REDUCE_RETURN_GOTOS
    true,  // FLATTEN_IFELSE
    true,  // REVERT_CROSS_JUMPS
    true,  // DUP_RETURN_CALL_TAILS
    true,  // DEDUP_ITE_TAIL
    true,  // ITEREGION
    true,  // ITEEXPR
    true,  // ITEBOOLEAN
    true,  // ITECONDLIST
    true,  // DUPLICATE_SHARED_RETURNS
    true,  // RETURNDUP_ORCHAIN
    true,  // EARLY_RETURN
    true,  // SWITCH_RETURN
    true,  // RECOVER_LOOP_BREAK
    true,  // FOLD_CALL_RETURNS
    true,  // FOLD_CALL_RET_PHI
    true,  // HIDE_SHADOW
    true,  // STRIP_STACK_GUARD
    true,  // STRIP_SECURITY_CHECK
    true,  // BRANCH_FLIP
    true,  // NAME_STYLE_ANGR
    true,  // DEDUP_VAR_DECLS
    true,  // PARAM_REF_DECL
    true,  // DECL_HIGH_TYPE
    false,  // REALTYPES
    false,  // CTYPES
    false,  // FRAMELAYOUT
    false,  // BYTE_HONEST
    false,  // VOIDTAILRETURN
    false,  // CORTEXMPRIV
    true,  // PRESENT_LESSEQUAL
    true,  // PRESERVE_THUMB_FUNCPTR
    false,  // ANALYSIS_NORETURN_KNOWN
    true,  // ANALYSIS_PEIMPORTCALL
    false,  // ANALYSIS_LIBPROTO
    false,  // ANALYSIS_LIBCSIGS
    false,  // ANALYSIS_LIBCTYPES
    false,  // ANALYSIS_LIBCTYPES_GLIBC
    false,  // ANALYSIS_WIN32SIGS
    false,  // ANALYSIS_DECLAREDLIBCPROTO
    false,  // ANALYSIS_STRINGS
    false,  // ANALYSIS_WIDESTRINGS
    false,  // ANALYSIS_ENTRY_DISC
    false,  // ANALYSIS_EH_FRAME_FULL
    false,  // ANALYSIS_UNMAPPEDENTRY
    false,  // ANALYSIS_PPCLOCALENTRY
    false,  // ANALYSIS_PICBASE
    false,  // ANALYSIS_ENTRYMAINPROTO
    false,  // ANALYSIS_MACHOMAIN
    false,  // ANALYSIS_ARMLIBCMAIN
    false,  // ANALYSIS_ELFMAIN
    false,  // ANALYSIS_FDEINTERIOR
    false,  // ANALYSIS_PDATAINTERIOR
    false,  // ANALYSIS_PDBINTERIOR
    false,  // ANALYSIS_FUNCSTART_PATTERNS
    false,  // ANALYSIS_CORTEXMVECTORS
    false,  // ANALYSIS_PTRENTRY
    false,  // ANALYSIS_POOLENTRY
    false,  // ANALYSIS_ARM_MARKERS
    false,  // ANALYSIS_ENTRYTHUMBFLOW
    false,  // ANALYSIS_MIPS_GP
    false,  // ANALYSIS_I386_PIE_PLT
    false,  // ANALYSIS_RELOCREBASE
    false,  // ANALYSIS_DYNRELOCS
    false,  // ANALYSIS_PDATACHAINED
    false,  // ANALYSIS_REXTHUNK
    false,  // ANALYSIS_SYMBOLNAMEREPAIR
    false,  // ANALYSIS_MSVCFPCONST
    false,  // ANALYSIS_MIPS_ISA
    false,  // ANALYSIS_DWARF
    false,  // ANALYSIS_DATASYMS
    false,  // ANALYSIS_DWARF_LINES
    false,  // ANALYSIS_CPPPROTO
    false,  // ANALYSIS_TYPEDEPTH
    false,  // ANALYSIS_DWARFSTRUCTS
    false,  // ANALYSIS_DWARFVARIANTS
    false,  // ANALYSIS_CALLFIXUP
    false,  // ANALYSIS_ADDRTABLE
    false,  // ANALYSIS_OPERAND_REFS
    false,  // ANALYSIS_LISTING
    false,  // ANALYSIS_FAST_FUNCDISC
    false,  // ANALYSIS_RAWDISCOVER
    false,  // ANALYSIS_NORETURN_DISC
    false,  // ANALYSIS_NORETURN_DISCSTRICT
    false,  // ANALYSIS_NORETURN_PROPAGATE
    false,  // ANALYSIS_NORETURN_ERROR
    false,  // ANALYSIS_NORETURN_REACH
    false,  // ANALYSIS_FID
    false,  // ANALYSIS_RTTI
    false,  // ANALYSIS_ITANIUMRTTI
    false,  // ANALYSIS_AIF
    false,  // ANALYSIS_AIFSTRICT
    false,  // ANALYSIS_AIFCORROBORATE
    false,  // ANALYSIS_TAILCALLENTRY
    false,  // ANALYSIS_GOPCLNTAB
    false,  // ANALYSIS_OBJC
    false,  // ANALYSIS_PDB
    false,  // MACHO_ARM64E
    false,  // EVALCURRENTPROTO
    true,  // CHAR_PTR
    true,  // NUL_TERMINATOR
    true,  // GUARD_ARM
    true,  // LOOP_COND_HOIST
    true,  // PARAM_COPY_HOIST
    true,  // MARK_INDIRECT_ONLY
    true,  // STRIP_MSVC_STACK_GUARD
    false,  // ANALYSIS_IFUNCFPRET
];

/// Whether the analysis of a function reads the level.
pub const LEVEL_CARRIED: [bool; 17] = [
    true,  // MAX_IMPLIED_REF
    true,  // MAX_TERM_DUPLICATION
    true,  // RUST_ABI
    true,  // CALL_OVERLAP
    true,  // SPILL_ARG_TRIAL
    true,  // INDEX_ALIAS_GUARD
    true,  // COND_FOLD
    false,  // INT3_PAD
    true,  // X64_SYSCALL
    false,  // PEB_NAMES
    true,  // STRUCT_SYNTH
    false,  // SIGNEDNESS
    true,  // PTR_FROM_USE
    false,  // PROTOORDER
    false,  // ANALYSIS_SYMBOLNAMECHARS
    false,  // ANALYSIS_CPPSIG
    false,  // ANALYSIS_FORMATSTRING
];

} // verus!
