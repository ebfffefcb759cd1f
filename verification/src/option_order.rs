//! The option names stand in order, so each names one row.

use vstd::prelude::*;
use crate::option_table::{KUNA_OPTIONS, OPTION_COUNT};
use crate::settings::{row_from, row_of};
use crate::text::{lemma_text_before_total, lemma_text_before_transitive, text_before};

verus! {

/// Two texts that agree on their first `k` characters and part there are in order.
proof fn lemma_before_at(a: Seq<char>, b: Seq<char>, k: int)
    requires
        0 <= k <= a.len(),
        k < b.len(),
        forall|j: int| 0 <= j < k ==> a[j] == b[j],
        k == a.len() || a[k] < b[k],
    ensures
        text_before(a, b),
    decreases k,
{
    if k > 0 {
        lemma_before_at(a.drop_first(), b.drop_first(), k - 1);
    }
}

/// The names of rows 0 to 28 ascend.
proof fn lemma_names_ascend_0(i: int)
    requires
        0 <= i < 28,
    ensures
        text_before(KUNA_OPTIONS@[i].0@, KUNA_OPTIONS@[i + 1].0@),
{
    reveal_strlit("addcarrychain");
    reveal_strlit("addrtable");
    reveal_strlit("aif");
    reveal_strlit("aifcorroborate");
    reveal_strlit("aifstrict");
    reveal_strlit("argclobber");
    reveal_strlit("arm_markers");
    reveal_strlit("armlibcmain");
    reveal_strlit("arraycoverwidth");
    reveal_strlit("arraynotation");
    reveal_strlit("arraystride");
    reveal_strlit("boolbyte");
    reveal_strlit("booleanmask");
    reveal_strlit("braceelide");
    reveal_strlit("branchflip");
    reveal_strlit("bytehonest");
    reveal_strlit("calleearity");
    reveal_strlit("calleearitybody");
    reveal_strlit("calleearitycut");
    reveal_strlit("calleearityfwd");
    reveal_strlit("calleearitylive");
    reveal_strlit("calleearityscratch");
    reveal_strlit("calleedeadarg");
    reveal_strlit("calleepop");
    reveal_strlit("calleepreserves");
    reveal_strlit("calleeprotostack");
    reveal_strlit("calleeretpreserves");
    reveal_strlit("calleescratchbody");
    reveal_strlit("callfixup");
    if i == 0 {
        lemma_before_at("addcarrychain"@, "addrtable"@, 3);
    } else if i == 1 {
        lemma_before_at("addrtable"@, "aif"@, 1);
    } else if i == 2 {
        lemma_before_at("aif"@, "aifcorroborate"@, 3);
    } else if i == 3 {
        lemma_before_at("aifcorroborate"@, "aifstrict"@, 3);
    } else if i == 4 {
        lemma_before_at("aifstrict"@, "argclobber"@, 1);
    } else if i == 5 {
        lemma_before_at("argclobber"@, "arm_markers"@, 2);
    } else if i == 6 {
        lemma_before_at("arm_markers"@, "armlibcmain"@, 3);
    } else if i == 7 {
        lemma_before_at("armlibcmain"@, "arraycoverwidth"@, 2);
    } else if i == 8 {
        lemma_before_at("arraycoverwidth"@, "arraynotation"@, 5);
    } else if i == 9 {
        lemma_before_at("arraynotation"@, "arraystride"@, 5);
    } else if i == 10 {
        lemma_before_at("arraystride"@, "boolbyte"@, 0);
    } else if i == 11 {
        lemma_before_at("boolbyte"@, "booleanmask"@, 4);
    } else if i == 12 {
        lemma_before_at("booleanmask"@, "braceelide"@, 1);
    } else if i == 13 {
        lemma_before_at("braceelide"@, "branchflip"@, 3);
    } else if i == 14 {
        lemma_before_at("branchflip"@, "bytehonest"@, 1);
    } else if i == 15 {
        lemma_before_at("bytehonest"@, "calleearity"@, 0);
    } else if i == 16 {
        lemma_before_at("calleearity"@, "calleearitybody"@, 11);
    } else if i == 17 {
        lemma_before_at("calleearitybody"@, "calleearitycut"@, 11);
    } else if i == 18 {
        lemma_before_at("calleearitycut"@, "calleearityfwd"@, 11);
    } else if i == 19 {
        lemma_before_at("calleearityfwd"@, "calleearitylive"@, 11);
    } else if i == 20 {
        lemma_before_at("calleearitylive"@, "calleearityscratch"@, 11);
    } else if i == 21 {
        lemma_before_at("calleearityscratch"@, "calleedeadarg"@, 6);
    } else if i == 22 {
        lemma_before_at("calleedeadarg"@, "calleepop"@, 6);
    } else if i == 23 {
        lemma_before_at("calleepop"@, "calleepreserves"@, 7);
    } else if i == 24 {
        lemma_before_at("calleepreserves"@, "calleeprotostack"@, 8);
    } else if i == 25 {
        lemma_before_at("calleeprotostack"@, "calleeretpreserves"@, 6);
    } else if i == 26 {
        lemma_before_at("calleeretpreserves"@, "calleescratchbody"@, 6);
    } else {
        lemma_before_at("calleescratchbody"@, "callfixup"@, 4);
    }
}

/// The names of rows 28 to 56 ascend.
proof fn lemma_names_ascend_28(i: int)
    requires
        28 <= i < 56,
    ensures
        text_before(KUNA_OPTIONS@[i].0@, KUNA_OPTIONS@[i + 1].0@),
{
    reveal_strlit("callfixup");
    reveal_strlit("calloverlap");
    reveal_strlit("callpopret");
    reveal_strlit("callretpair");
    reveal_strlit("callsitestackargs");
    reveal_strlit("calltrampoline");
    reveal_strlit("cancelbytearithmetic");
    reveal_strlit("charbyte");
    reveal_strlit("charptr");
    reveal_strlit("cleanupcode");
    reveal_strlit("codescalar");
    reveal_strlit("compareform");
    reveal_strlit("condexeplace");
    reveal_strlit("condfold");
    reveal_strlit("constselectjump");
    reveal_strlit("constspaceload");
    reveal_strlit("cookiescramble");
    reveal_strlit("cortexmpriv");
    reveal_strlit("cortexmvectors");
    reveal_strlit("cppproto");
    reveal_strlit("cppsig");
    reveal_strlit("crossjumprevert");
    reveal_strlit("ctypes");
    reveal_strlit("datasyms");
    reveal_strlit("declaredlibcproto");
    reveal_strlit("declhightype");
    reveal_strlit("decodehalt");
    reveal_strlit("dedupitetail");
    reveal_strlit("dedupvardecls");
    if i == 28 {
        lemma_before_at("callfixup"@, "calloverlap"@, 4);
    } else if i == 29 {
        lemma_before_at("calloverlap"@, "callpopret"@, 4);
    } else if i == 30 {
        lemma_before_at("callpopret"@, "callretpair"@, 4);
    } else if i == 31 {
        lemma_before_at("callretpair"@, "callsitestackargs"@, 4);
    } else if i == 32 {
        lemma_before_at("callsitestackargs"@, "calltrampoline"@, 4);
    } else if i == 33 {
        lemma_before_at("calltrampoline"@, "cancelbytearithmetic"@, 2);
    } else if i == 34 {
        lemma_before_at("cancelbytearithmetic"@, "charbyte"@, 1);
    } else if i == 35 {
        lemma_before_at("charbyte"@, "charptr"@, 4);
    } else if i == 36 {
        lemma_before_at("charptr"@, "cleanupcode"@, 1);
    } else if i == 37 {
        lemma_before_at("cleanupcode"@, "codescalar"@, 1);
    } else if i == 38 {
        lemma_before_at("codescalar"@, "compareform"@, 2);
    } else if i == 39 {
        lemma_before_at("compareform"@, "condexeplace"@, 2);
    } else if i == 40 {
        lemma_before_at("condexeplace"@, "condfold"@, 4);
    } else if i == 41 {
        lemma_before_at("condfold"@, "constselectjump"@, 3);
    } else if i == 42 {
        lemma_before_at("constselectjump"@, "constspaceload"@, 6);
    } else if i == 43 {
        lemma_before_at("constspaceload"@, "cookiescramble"@, 2);
    } else if i == 44 {
        lemma_before_at("cookiescramble"@, "cortexmpriv"@, 2);
    } else if i == 45 {
        lemma_before_at("cortexmpriv"@, "cortexmvectors"@, 7);
    } else if i == 46 {
        lemma_before_at("cortexmvectors"@, "cppproto"@, 1);
    } else if i == 47 {
        lemma_before_at("cppproto"@, "cppsig"@, 3);
    } else if i == 48 {
        lemma_before_at("cppsig"@, "crossjumprevert"@, 1);
    } else if i == 49 {
        lemma_before_at("crossjumprevert"@, "ctypes"@, 1);
    } else if i == 50 {
        lemma_before_at("ctypes"@, "datasyms"@, 0);
    } else if i == 51 {
        lemma_before_at("datasyms"@, "declaredlibcproto"@, 1);
    } else if i == 52 {
        lemma_before_at("declaredlibcproto"@, "declhightype"@, 4);
    } else if i == 53 {
        lemma_before_at("declhightype"@, "decodehalt"@, 3);
    } else if i == 54 {
        lemma_before_at("decodehalt"@, "dedupitetail"@, 2);
    } else {
        lemma_before_at("dedupitetail"@, "dedupvardecls"@, 5);
    }
}

/// The names of rows 56 to 84 ascend.
proof fn lemma_names_ascend_56(i: int)
    requires
        56 <= i < 84,
    ensures
        text_before(KUNA_OPTIONS@[i].0@, KUNA_OPTIONS@[i + 1].0@),
{
    reveal_strlit("dedupvardecls");
    reveal_strlit("dwarf");
    reveal_strlit("dwarf_lines");
    reveal_strlit("dwarfstructs");
    reveal_strlit("dwarfvariants");
    reveal_strlit("dynamichashmax");
    reveal_strlit("dynrelocs");
    reveal_strlit("earlyreturn");
    reveal_strlit("eh_frame_full");
    reveal_strlit("elfmain");
    reveal_strlit("emptystrconst");
    reveal_strlit("endptrbound");
    reveal_strlit("entry_disc");
    reveal_strlit("entrymainproto");
    reveal_strlit("entryretdispatch");
    reveal_strlit("entrythumbflow");
    reveal_strlit("evalcurrentproto");
    reveal_strlit("exclusivearguse");
    reveal_strlit("fast_funcdisc");
    reveal_strlit("fastfailnoreturn");
    reveal_strlit("fdeinterior");
    reveal_strlit("fid");
    reveal_strlit("flagcompare");
    reveal_strlit("foldcallret");
    reveal_strlit("foldcallretphi");
    reveal_strlit("formatstring");
    reveal_strlit("framelayout");
    reveal_strlit("funcboundflow");
    reveal_strlit("funcstart_patterns");
    if i == 56 {
        lemma_before_at("dedupvardecls"@, "dwarf"@, 1);
    } else if i == 57 {
        lemma_before_at("dwarf"@, "dwarf_lines"@, 5);
    } else if i == 58 {
        lemma_before_at("dwarf_lines"@, "dwarfstructs"@, 5);
    } else if i == 59 {
        lemma_before_at("dwarfstructs"@, "dwarfvariants"@, 5);
    } else if i == 60 {
        lemma_before_at("dwarfvariants"@, "dynamichashmax"@, 1);
    } else if i == 61 {
        lemma_before_at("dynamichashmax"@, "dynrelocs"@, 3);
    } else if i == 62 {
        lemma_before_at("dynrelocs"@, "earlyreturn"@, 0);
    } else if i == 63 {
        lemma_before_at("earlyreturn"@, "eh_frame_full"@, 1);
    } else if i == 64 {
        lemma_before_at("eh_frame_full"@, "elfmain"@, 1);
    } else if i == 65 {
        lemma_before_at("elfmain"@, "emptystrconst"@, 1);
    } else if i == 66 {
        lemma_before_at("emptystrconst"@, "endptrbound"@, 1);
    } else if i == 67 {
        lemma_before_at("endptrbound"@, "entry_disc"@, 2);
    } else if i == 68 {
        lemma_before_at("entry_disc"@, "entrymainproto"@, 5);
    } else if i == 69 {
        lemma_before_at("entrymainproto"@, "entryretdispatch"@, 5);
    } else if i == 70 {
        lemma_before_at("entryretdispatch"@, "entrythumbflow"@, 5);
    } else if i == 71 {
        lemma_before_at("entrythumbflow"@, "evalcurrentproto"@, 1);
    } else if i == 72 {
        lemma_before_at("evalcurrentproto"@, "exclusivearguse"@, 1);
    } else if i == 73 {
        lemma_before_at("exclusivearguse"@, "fast_funcdisc"@, 0);
    } else if i == 74 {
        lemma_before_at("fast_funcdisc"@, "fastfailnoreturn"@, 4);
    } else if i == 75 {
        lemma_before_at("fastfailnoreturn"@, "fdeinterior"@, 1);
    } else if i == 76 {
        lemma_before_at("fdeinterior"@, "fid"@, 1);
    } else if i == 77 {
        lemma_before_at("fid"@, "flagcompare"@, 1);
    } else if i == 78 {
        lemma_before_at("flagcompare"@, "foldcallret"@, 1);
    } else if i == 79 {
        lemma_before_at("foldcallret"@, "foldcallretphi"@, 11);
    } else if i == 80 {
        lemma_before_at("foldcallretphi"@, "formatstring"@, 2);
    } else if i == 81 {
        lemma_before_at("formatstring"@, "framelayout"@, 1);
    } else if i == 82 {
        lemma_before_at("framelayout"@, "funcboundflow"@, 1);
    } else {
        lemma_before_at("funcboundflow"@, "funcstart_patterns"@, 4);
    }
}

/// The names of rows 84 to 112 ascend.
proof fn lemma_names_ascend_84(i: int)
    requires
        84 <= i < 112,
    ensures
        text_before(KUNA_OPTIONS@[i].0@, KUNA_OPTIONS@[i + 1].0@),
{
    reveal_strlit("funcstart_patterns");
    reveal_strlit("gopclntab");
    reveal_strlit("gotoreduce");
    reveal_strlit("guardarm");
    reveal_strlit("hideshadow");
    reveal_strlit("i386_pie_plt");
    reveal_strlit("ifelseflatten");
    reveal_strlit("ifuncfpret");
    reveal_strlit("impliedrefs");
    reveal_strlit("indexaliasguard");
    reveal_strlit("indirectanchor");
    reveal_strlit("indirectonly");
    reveal_strlit("inferfuncentry");
    reveal_strlit("inputparamgap");
    reveal_strlit("inputvarnodeadjust");
    reveal_strlit("int3pad");
    reveal_strlit("itaniumrtti");
    reveal_strlit("iteboolean");
    reveal_strlit("itecondlist");
    reveal_strlit("iteexpr");
    reveal_strlit("iteregion");
    reveal_strlit("jtsharepartial");
    reveal_strlit("libcsigs");
    reveal_strlit("libctypes");
    reveal_strlit("libproto");
    reveal_strlit("linuxsyscall");
    reveal_strlit("listing");
    reveal_strlit("litpoolconst");
    reveal_strlit("loadguardrange");
    if i == 84 {
        lemma_before_at("funcstart_patterns"@, "gopclntab"@, 0);
    } else if i == 85 {
        lemma_before_at("gopclntab"@, "gotoreduce"@, 2);
    } else if i == 86 {
        lemma_before_at("gotoreduce"@, "guardarm"@, 1);
    } else if i == 87 {
        lemma_before_at("guardarm"@, "hideshadow"@, 0);
    } else if i == 88 {
        lemma_before_at("hideshadow"@, "i386_pie_plt"@, 0);
    } else if i == 89 {
        lemma_before_at("i386_pie_plt"@, "ifelseflatten"@, 1);
    } else if i == 90 {
        lemma_before_at("ifelseflatten"@, "ifuncfpret"@, 2);
    } else if i == 91 {
        lemma_before_at("ifuncfpret"@, "impliedrefs"@, 1);
    } else if i == 92 {
        lemma_before_at("impliedrefs"@, "indexaliasguard"@, 1);
    } else if i == 93 {
        lemma_before_at("indexaliasguard"@, "indirectanchor"@, 3);
    } else if i == 94 {
        lemma_before_at("indirectanchor"@, "indirectonly"@, 8);
    } else if i == 95 {
        lemma_before_at("indirectonly"@, "inferfuncentry"@, 2);
    } else if i == 96 {
        lemma_before_at("inferfuncentry"@, "inputparamgap"@, 2);
    } else if i == 97 {
        lemma_before_at("inputparamgap"@, "inputvarnodeadjust"@, 5);
    } else if i == 98 {
        lemma_before_at("inputvarnodeadjust"@, "int3pad"@, 2);
    } else if i == 99 {
        lemma_before_at("int3pad"@, "itaniumrtti"@, 1);
    } else if i == 100 {
        lemma_before_at("itaniumrtti"@, "iteboolean"@, 2);
    } else if i == 101 {
        lemma_before_at("iteboolean"@, "itecondlist"@, 3);
    } else if i == 102 {
        lemma_before_at("itecondlist"@, "iteexpr"@, 3);
    } else if i == 103 {
        lemma_before_at("iteexpr"@, "iteregion"@, 3);
    } else if i == 104 {
        lemma_before_at("iteregion"@, "jtsharepartial"@, 0);
    } else if i == 105 {
        lemma_before_at("jtsharepartial"@, "libcsigs"@, 0);
    } else if i == 106 {
        lemma_before_at("libcsigs"@, "libctypes"@, 4);
    } else if i == 107 {
        lemma_before_at("libctypes"@, "libproto"@, 3);
    } else if i == 108 {
        lemma_before_at("libproto"@, "linuxsyscall"@, 2);
    } else if i == 109 {
        lemma_before_at("linuxsyscall"@, "listing"@, 2);
    } else if i == 110 {
        lemma_before_at("listing"@, "litpoolconst"@, 2);
    } else {
        lemma_before_at("litpoolconst"@, "loadguardrange"@, 1);
    }
}

/// The names of rows 112 to 140 ascend.
proof fn lemma_names_ascend_112(i: int)
    requires
        112 <= i < 140,
    ensures
        text_before(KUNA_OPTIONS@[i].0@, KUNA_OPTIONS@[i + 1].0@),
{
    reveal_strlit("loadguardrange");
    reveal_strlit("loopbreak_recovery");
    reveal_strlit("loopcondhoist");
    reveal_strlit("loopcounterstore");
    reveal_strlit("loweredswitch");
    reveal_strlit("loweredswitchexact");
    reveal_strlit("loweredswitchheads");
    reveal_strlit("loweredswitchlabels");
    reveal_strlit("loweredswitchvalue");
    reveal_strlit("macho-arm64e");
    reveal_strlit("machomain");
    reveal_strlit("mappedflowboundary");
    reveal_strlit("memsetrecover");
    reveal_strlit("mips_gp");
    reveal_strlit("mips_isa");
    reveal_strlit("msvcfpconst");
    reveal_strlit("msvcftol");
    reveal_strlit("msvcstackguard");
    reveal_strlit("msvcstrappend");
    reveal_strlit("mulblob");
    reveal_strlit("namestyle");
    reveal_strlit("noreturn_disc");
    reveal_strlit("noreturn_discstrict");
    reveal_strlit("noreturn_error");
    reveal_strlit("noreturn_extern");
    reveal_strlit("noreturn_externmatch");
    reveal_strlit("noreturn_known");
    reveal_strlit("noreturn_propagate");
    reveal_strlit("noreturn_reach");
    if i == 112 {
        lemma_before_at("loadguardrange"@, "loopbreak_recovery"@, 2);
    } else if i == 113 {
        lemma_before_at("loopbreak_recovery"@, "loopcondhoist"@, 4);
    } else if i == 114 {
        lemma_before_at("loopcondhoist"@, "loopcounterstore"@, 6);
    } else if i == 115 {
        lemma_before_at("loopcounterstore"@, "loweredswitch"@, 2);
    } else if i == 116 {
        lemma_before_at("loweredswitch"@, "loweredswitchexact"@, 13);
    } else if i == 117 {
        lemma_before_at("loweredswitchexact"@, "loweredswitchheads"@, 13);
    } else if i == 118 {
        lemma_before_at("loweredswitchheads"@, "loweredswitchlabels"@, 13);
    } else if i == 119 {
        lemma_before_at("loweredswitchlabels"@, "loweredswitchvalue"@, 13);
    } else if i == 120 {
        lemma_before_at("loweredswitchvalue"@, "macho-arm64e"@, 0);
    } else if i == 121 {
        lemma_before_at("macho-arm64e"@, "machomain"@, 5);
    } else if i == 122 {
        lemma_before_at("machomain"@, "mappedflowboundary"@, 2);
    } else if i == 123 {
        lemma_before_at("mappedflowboundary"@, "memsetrecover"@, 1);
    } else if i == 124 {
        lemma_before_at("memsetrecover"@, "mips_gp"@, 1);
    } else if i == 125 {
        lemma_before_at("mips_gp"@, "mips_isa"@, 5);
    } else if i == 126 {
        lemma_before_at("mips_isa"@, "msvcfpconst"@, 1);
    } else if i == 127 {
        lemma_before_at("msvcfpconst"@, "msvcftol"@, 5);
    } else if i == 128 {
        lemma_before_at("msvcftol"@, "msvcstackguard"@, 4);
    } else if i == 129 {
        lemma_before_at("msvcstackguard"@, "msvcstrappend"@, 6);
    } else if i == 130 {
        lemma_before_at("msvcstrappend"@, "mulblob"@, 1);
    } else if i == 131 {
        lemma_before_at("mulblob"@, "namestyle"@, 0);
    } else if i == 132 {
        lemma_before_at("namestyle"@, "noreturn_disc"@, 1);
    } else if i == 133 {
        lemma_before_at("noreturn_disc"@, "noreturn_discstrict"@, 13);
    } else if i == 134 {
        lemma_before_at("noreturn_discstrict"@, "noreturn_error"@, 9);
    } else if i == 135 {
        lemma_before_at("noreturn_error"@, "noreturn_extern"@, 10);
    } else if i == 136 {
        lemma_before_at("noreturn_extern"@, "noreturn_externmatch"@, 15);
    } else if i == 137 {
        lemma_before_at("noreturn_externmatch"@, "noreturn_known"@, 9);
    } else if i == 138 {
        lemma_before_at("noreturn_known"@, "noreturn_propagate"@, 9);
    } else {
        lemma_before_at("noreturn_propagate"@, "noreturn_reach"@, 9);
    }
}

/// The names of rows 140 to 168 ascend.
proof fn lemma_names_ascend_140(i: int)
    requires
        140 <= i < 168,
    ensures
        text_before(KUNA_OPTIONS@[i].0@, KUNA_OPTIONS@[i + 1].0@),
{
    reveal_strlit("noreturn_reach");
    reveal_strlit("noreturnretuse");
    reveal_strlit("nulterminator");
    reveal_strlit("objc");
    reveal_strlit("operand_refs");
    reveal_strlit("orchain");
    reveal_strlit("outline");
    reveal_strlit("overlapbranch");
    reveal_strlit("ovlesssimplify");
    reveal_strlit("paramcopyhoist");
    reveal_strlit("paramrefdecl");
    reveal_strlit("pdatachained");
    reveal_strlit("pdatainterior");
    reveal_strlit("pdb");
    reveal_strlit("pdbinterior");
    reveal_strlit("pebnames");
    reveal_strlit("peimportcall");
    reveal_strlit("picbase");
    reveal_strlit("poolentry");
    reveal_strlit("ppclocalentry");
    reveal_strlit("protoorder");
    reveal_strlit("ptrdepthcap");
    reveal_strlit("ptrentry");
    reveal_strlit("ptrfromuse");
    reveal_strlit("pushimmediateret");
    reveal_strlit("rawdiscover");
    reveal_strlit("realtypes");
    reveal_strlit("regionedgeorder");
    reveal_strlit("regionlooprefine");
    if i == 140 {
        lemma_before_at("noreturn_reach"@, "noreturnretuse"@, 8);
    } else if i == 141 {
        lemma_before_at("noreturnretuse"@, "nulterminator"@, 1);
    } else if i == 142 {
        lemma_before_at("nulterminator"@, "objc"@, 0);
    } else if i == 143 {
        lemma_before_at("objc"@, "operand_refs"@, 1);
    } else if i == 144 {
        lemma_before_at("operand_refs"@, "orchain"@, 1);
    } else if i == 145 {
        lemma_before_at("orchain"@, "outline"@, 1);
    } else if i == 146 {
        lemma_before_at("outline"@, "overlapbranch"@, 1);
    } else if i == 147 {
        lemma_before_at("overlapbranch"@, "ovlesssimplify"@, 2);
    } else if i == 148 {
        lemma_before_at("ovlesssimplify"@, "paramcopyhoist"@, 0);
    } else if i == 149 {
        lemma_before_at("paramcopyhoist"@, "paramrefdecl"@, 5);
    } else if i == 150 {
        lemma_before_at("paramrefdecl"@, "pdatachained"@, 1);
    } else if i == 151 {
        lemma_before_at("pdatachained"@, "pdatainterior"@, 5);
    } else if i == 152 {
        lemma_before_at("pdatainterior"@, "pdb"@, 2);
    } else if i == 153 {
        lemma_before_at("pdb"@, "pdbinterior"@, 3);
    } else if i == 154 {
        lemma_before_at("pdbinterior"@, "pebnames"@, 1);
    } else if i == 155 {
        lemma_before_at("pebnames"@, "peimportcall"@, 2);
    } else if i == 156 {
        lemma_before_at("peimportcall"@, "picbase"@, 1);
    } else if i == 157 {
        lemma_before_at("picbase"@, "poolentry"@, 1);
    } else if i == 158 {
        lemma_before_at("poolentry"@, "ppclocalentry"@, 1);
    } else if i == 159 {
        lemma_before_at("ppclocalentry"@, "protoorder"@, 1);
    } else if i == 160 {
        lemma_before_at("protoorder"@, "ptrdepthcap"@, 1);
    } else if i == 161 {
        lemma_before_at("ptrdepthcap"@, "ptrentry"@, 3);
    } else if i == 162 {
        lemma_before_at("ptrentry"@, "ptrfromuse"@, 3);
    } else if i == 163 {
        lemma_before_at("ptrfromuse"@, "pushimmediateret"@, 1);
    } else if i == 164 {
        lemma_before_at("pushimmediateret"@, "rawdiscover"@, 0);
    } else if i == 165 {
        lemma_before_at("rawdiscover"@, "realtypes"@, 1);
    } else if i == 166 {
        lemma_before_at("realtypes"@, "regionedgeorder"@, 2);
    } else {
        lemma_before_at("regionedgeorder"@, "regionlooprefine"@, 6);
    }
}

/// The names of rows 168 to 196 ascend.
proof fn lemma_names_ascend_168(i: int)
    requires
        168 <= i < 196,
    ensures
        text_before(KUNA_OPTIONS@[i].0@, KUNA_OPTIONS@[i + 1].0@),
{
    reveal_strlit("regionlooprefine");
    reveal_strlit("regionstructure");
    reveal_strlit("relocobjects");
    reveal_strlit("relocrebase");
    reveal_strlit("retinputhalf");
    reveal_strlit("retpushedhalf");
    reveal_strlit("retsplitglobal");
    reveal_strlit("returndup");
    reveal_strlit("returnpair");
    reveal_strlit("rexthunk");
    reveal_strlit("rodatastring");
    reveal_strlit("rtti");
    reveal_strlit("rustabi");
    reveal_strlit("securitycheck");
    reveal_strlit("signedness");
    reveal_strlit("simdlane");
    reveal_strlit("sparcstructret");
    reveal_strlit("spillargtrial");
    reveal_strlit("splitstorekeep");
    reveal_strlit("stackalias");
    reveal_strlit("stackarggap");
    reveal_strlit("stackguard");
    reveal_strlit("stackprobeloop");
    reveal_strlit("strings");
    reveal_strlit("structdefs");
    reveal_strlit("structsynth");
    reveal_strlit("switchguardbound");
    reveal_strlit("switchmodbound");
    reveal_strlit("switchmultipred");
    if i == 168 {
        lemma_before_at("regionlooprefine"@, "regionstructure"@, 6);
    } else if i == 169 {
        lemma_before_at("regionstructure"@, "relocobjects"@, 2);
    } else if i == 170 {
        lemma_before_at("relocobjects"@, "relocrebase"@, 5);
    } else if i == 171 {
        lemma_before_at("relocrebase"@, "retinputhalf"@, 2);
    } else if i == 172 {
        lemma_before_at("retinputhalf"@, "retpushedhalf"@, 3);
    } else if i == 173 {
        lemma_before_at("retpushedhalf"@, "retsplitglobal"@, 3);
    } else if i == 174 {
        lemma_before_at("retsplitglobal"@, "returndup"@, 3);
    } else if i == 175 {
        lemma_before_at("returndup"@, "returnpair"@, 6);
    } else if i == 176 {
        lemma_before_at("returnpair"@, "rexthunk"@, 2);
    } else if i == 177 {
        lemma_before_at("rexthunk"@, "rodatastring"@, 1);
    } else if i == 178 {
        lemma_before_at("rodatastring"@, "rtti"@, 1);
    } else if i == 179 {
        lemma_before_at("rtti"@, "rustabi"@, 1);
    } else if i == 180 {
        lemma_before_at("rustabi"@, "securitycheck"@, 0);
    } else if i == 181 {
        lemma_before_at("securitycheck"@, "signedness"@, 1);
    } else if i == 182 {
        lemma_before_at("signedness"@, "simdlane"@, 2);
    } else if i == 183 {
        lemma_before_at("simdlane"@, "sparcstructret"@, 1);
    } else if i == 184 {
        lemma_before_at("sparcstructret"@, "spillargtrial"@, 2);
    } else if i == 185 {
        lemma_before_at("spillargtrial"@, "splitstorekeep"@, 2);
    } else if i == 186 {
        lemma_before_at("splitstorekeep"@, "stackalias"@, 1);
    } else if i == 187 {
        lemma_before_at("stackalias"@, "stackarggap"@, 6);
    } else if i == 188 {
        lemma_before_at("stackarggap"@, "stackguard"@, 5);
    } else if i == 189 {
        lemma_before_at("stackguard"@, "stackprobeloop"@, 5);
    } else if i == 190 {
        lemma_before_at("stackprobeloop"@, "strings"@, 2);
    } else if i == 191 {
        lemma_before_at("strings"@, "structdefs"@, 3);
    } else if i == 192 {
        lemma_before_at("structdefs"@, "structsynth"@, 6);
    } else if i == 193 {
        lemma_before_at("structsynth"@, "switchguardbound"@, 1);
    } else if i == 194 {
        lemma_before_at("switchguardbound"@, "switchmodbound"@, 6);
    } else {
        lemma_before_at("switchmodbound"@, "switchmultipred"@, 7);
    }
}

/// The names of rows 196 to 223 ascend.
proof fn lemma_names_ascend_196(i: int)
    requires
        196 <= i < 223,
    ensures
        text_before(KUNA_OPTIONS@[i].0@, KUNA_OPTIONS@[i + 1].0@),
{
    reveal_strlit("switchmultipred");
    reveal_strlit("switchreturn");
    reveal_strlit("switchselector");
    reveal_strlit("switchsharedcase");
    reveal_strlit("symbolnamebound");
    reveal_strlit("symbolnamechars");
    reveal_strlit("symbolnamerepair");
    reveal_strlit("tailcallentry");
    reveal_strlit("tailcallframe");
    reveal_strlit("tailcalljump");
    reveal_strlit("tailcallsaved");
    reveal_strlit("taildup");
    reveal_strlit("termdup");
    reveal_strlit("thumbfuncptr");
    reveal_strlit("tiedphitrim");
    reveal_strlit("tiedstorekeep");
    reveal_strlit("truthycond");
    reveal_strlit("typedepth");
    reveal_strlit("unmappedentry");
    reveal_strlit("unrolledguard");
    reveal_strlit("v850indirectbranch");
    reveal_strlit("varargstackargs");
    reveal_strlit("voidtailreturn");
    reveal_strlit("warnstyle");
    reveal_strlit("widestrings");
    reveal_strlit("win32sigs");
    reveal_strlit("x64syscall");
    reveal_strlit("zeroidiomuse");
    if i == 196 {
        lemma_before_at("switchmultipred"@, "switchreturn"@, 6);
    } else if i == 197 {
        lemma_before_at("switchreturn"@, "switchselector"@, 6);
    } else if i == 198 {
        lemma_before_at("switchselector"@, "switchsharedcase"@, 7);
    } else if i == 199 {
        lemma_before_at("switchsharedcase"@, "symbolnamebound"@, 1);
    } else if i == 200 {
        lemma_before_at("symbolnamebound"@, "symbolnamechars"@, 10);
    } else if i == 201 {
        lemma_before_at("symbolnamechars"@, "symbolnamerepair"@, 10);
    } else if i == 202 {
        lemma_before_at("symbolnamerepair"@, "tailcallentry"@, 0);
    } else if i == 203 {
        lemma_before_at("tailcallentry"@, "tailcallframe"@, 8);
    } else if i == 204 {
        lemma_before_at("tailcallframe"@, "tailcalljump"@, 8);
    } else if i == 205 {
        lemma_before_at("tailcalljump"@, "tailcallsaved"@, 8);
    } else if i == 206 {
        lemma_before_at("tailcallsaved"@, "taildup"@, 4);
    } else if i == 207 {
        lemma_before_at("taildup"@, "termdup"@, 1);
    } else if i == 208 {
        lemma_before_at("termdup"@, "thumbfuncptr"@, 1);
    } else if i == 209 {
        lemma_before_at("thumbfuncptr"@, "tiedphitrim"@, 1);
    } else if i == 210 {
        lemma_before_at("tiedphitrim"@, "tiedstorekeep"@, 4);
    } else if i == 211 {
        lemma_before_at("tiedstorekeep"@, "truthycond"@, 1);
    } else if i == 212 {
        lemma_before_at("truthycond"@, "typedepth"@, 1);
    } else if i == 213 {
        lemma_before_at("typedepth"@, "unmappedentry"@, 0);
    } else if i == 214 {
        lemma_before_at("unmappedentry"@, "unrolledguard"@, 2);
    } else if i == 215 {
        lemma_before_at("unrolledguard"@, "v850indirectbranch"@, 0);
    } else if i == 216 {
        lemma_before_at("v850indirectbranch"@, "varargstackargs"@, 1);
    } else if i == 217 {
        lemma_before_at("varargstackargs"@, "voidtailreturn"@, 1);
    } else if i == 218 {
        lemma_before_at("voidtailreturn"@, "warnstyle"@, 0);
    } else if i == 219 {
        lemma_before_at("warnstyle"@, "widestrings"@, 1);
    } else if i == 220 {
        lemma_before_at("widestrings"@, "win32sigs"@, 2);
    } else if i == 221 {
        lemma_before_at("win32sigs"@, "x64syscall"@, 0);
    } else {
        lemma_before_at("x64syscall"@, "zeroidiomuse"@, 0);
    }
}

/// The names of the options ascend from row to row.
pub proof fn law_names_ascend(i: int, j: int)
    requires
        0 <= i < j < OPTION_COUNT,
    ensures
        text_before(KUNA_OPTIONS@[i].0@, KUNA_OPTIONS@[j].0@),
    decreases j - i,
{
    let m = j - 1;
    if m < 28 {
        lemma_names_ascend_0(m);
    } else if m < 56 {
        lemma_names_ascend_28(m);
    } else if m < 84 {
        lemma_names_ascend_56(m);
    } else if m < 112 {
        lemma_names_ascend_84(m);
    } else if m < 140 {
        lemma_names_ascend_112(m);
    } else if m < 168 {
        lemma_names_ascend_140(m);
    } else if m < 196 {
        lemma_names_ascend_168(m);
    } else {
        lemma_names_ascend_196(m);
    }
    if i < m {
        law_names_ascend(i, m);
        lemma_text_before_transitive(
            KUNA_OPTIONS@[i].0@,
            KUNA_OPTIONS@[m].0@,
            KUNA_OPTIONS@[j].0@,
        );
    }
}

/// Every row is the row of its own name: no option shadows another.
pub proof fn law_row_of_own_name(i: int)
    requires
        0 <= i < OPTION_COUNT,
    ensures
        row_of(KUNA_OPTIONS@[i].0@) == Some(i),
{
    lemma_row_from_own_name(0, i);
}

proof fn lemma_row_from_own_name(from: int, i: int)
    requires
        0 <= from <= i < OPTION_COUNT,
    ensures
        row_from(KUNA_OPTIONS@[i].0@, from) == Some(i),
    decreases i - from,
{
    if from < i {
        law_names_ascend(from, i);
        lemma_text_before_total(KUNA_OPTIONS@[from].0@, KUNA_OPTIONS@[i].0@);
        lemma_row_from_own_name(from + 1, i);
    }
}

/// What is found under a name is a row of that name.
pub proof fn law_row_has_name(name: Seq<char>)
    ensures
        match row_of(name) {
            Some(i) => 0 <= i < OPTION_COUNT && KUNA_OPTIONS@[i].0@ == name,
            None => forall|i: int|
                0 <= i < OPTION_COUNT ==> (#[trigger] KUNA_OPTIONS@[i]).0@ != name,
        },
{
    lemma_row_from_has_name(name, 0);
}

proof fn lemma_row_from_has_name(name: Seq<char>, from: int)
    requires
        0 <= from <= OPTION_COUNT,
    ensures
        match row_from(name, from) {
            Some(i) => from <= i < OPTION_COUNT && KUNA_OPTIONS@[i].0@ == name,
            None => forall|i: int|
                from <= i < OPTION_COUNT ==> (#[trigger] KUNA_OPTIONS@[i]).0@ != name,
        },
    decreases OPTION_COUNT - from,
{
    if from < OPTION_COUNT {
        lemma_row_from_has_name(name, from + 1);
    }
}

} // verus!
