use vstd::prelude::*;

verus! {

/// The two flavours of the arithmetic and address-parsing instructions:
/// `Signaling` faults on overflow or bad input, `Quiet` produces a NaN or null
/// result instead.
#[derive(Clone, Copy, Debug, PartialEq, Eq, Structural)]
pub enum Variant {
    Signaling,
    Quiet,
}

/// The identity of an instruction-body loader of code page 0.
///
/// Each variant names the routine that decodes the operands of one
/// instruction (or family of instructions) once the dispatch table has
/// consumed its opcode bytes. Loaders that exist in a signaling and a quiet
/// flavour carry the flavour as a parameter, so the two are distinct values.
#[derive(Clone, Copy, Debug, PartialEq, Eq, Structural)]
pub enum Loader {
    Nop,
    XchgSimple,
    XchgStd,
    XchgLong,
    PushSimple,
    PopSimple,
    Xchg3,
    Xchg2,
    Xcpu,
    Puxc,
    Push2,
    Xc2pu,
    Xcpuxc,
    Xcpu2,
    Puxc2,
    Puxcpu,
    Pu2xc,
    Push3,
    Blkswap,
    Push,
    Pop,
    Rot,
    Rotrev,
    Swap2,
    Drop2,
    Dup2,
    Over2,
    Reverse,
    Blkdrop,
    Blkpush,
    Pick,
    Rollx,
    Rollrevx,
    Blkswx,
    Revx,
    Dropx,
    Tuck,
    Xchgx,
    Depth,
    Chkdepth,
    Onlytopx,
    Onlyx,
    Blkdrop2,
    Null,
    Isnull,
    TupleCreate,
    TupleIndex,
    TupleUn,
    TupleUnpackfirst,
    TupleExplode,
    TupleSetindex,
    TupleIndexQuiet,
    TupleSetindexQuiet,
    TupleCreatevar,
    TupleIndexvar,
    TupleUntuplevar,
    TupleUnpackfirstvar,
    TupleExplodevar,
    TupleSetindexvar,
    TupleIndexvarQuiet,
    TupleSetindexvarQuiet,
    TupleLen,
    TupleLenQuiet,
    Istuple,
    TupleLast,
    TuplePush,
    TuplePop,
    Nullswapif,
    Nullswapifnot,
    Nullrotrif,
    Nullrotrifnot,
    Nullswapif2,
    Nullswapifnot2,
    Nullrotrif2,
    Nullrotrifnot2,
    TupleIndex2,
    TupleIndex3,
    Pushint,
    PushintBig,
    Pushpow2,
    Pushnan,
    Pushpow2dec,
    Pushnegpow2,
    Pushref,
    Pushrefslice,
    Pushrefcont,
    PushsliceShort,
    PushsliceMid,
    PushsliceLong,
    PushcontLong,
    PushcontShort,
    Add(Variant),
    Sub(Variant),
    Subr(Variant),
    Negate(Variant),
    Inc(Variant),
    Dec(Variant),
    Addconst(Variant),
    Mulconst(Variant),
    Mul(Variant),
    Divmod(Variant),
    Lshift(Variant),
    Rshift(Variant),
    Pow2(Variant),
    And(Variant),
    Or(Variant),
    Xor(Variant),
    Not(Variant),
    Fits(Variant),
    Ufits(Variant),
    Fitsx(Variant),
    Ufitsx(Variant),
    Bitsize(Variant),
    Ubitsize(Variant),
    Min(Variant),
    Max(Variant),
    Minmax(Variant),
    Abs(Variant),
    Sgn(Variant),
    Less(Variant),
    Equal(Variant),
    Leq(Variant),
    Greater(Variant),
    Neq(Variant),
    Geq(Variant),
    Cmp(Variant),
    Eqint(Variant),
    Lessint(Variant),
    Gtint(Variant),
    Neqint(Variant),
    Isnan,
    Chknan,
    Sempty,
    Sdempty,
    Srempty,
    Sdfirst,
    Sdlexcmp,
    Sdeq,
    Sdpfx,
    Sdpfxrev,
    Sdppfx,
    Sdppfxrev,
    Sdsfx,
    Sdsfxrev,
    Sdpsfx,
    Sdpsfxrev,
    Sdcntlead0,
    Sdcntlead1,
    Sdcnttrail0,
    Sdcnttrail1,
    Newc,
    Endc,
    Sti,
    Stu,
    Stref,
    Endcst,
    Stslice,
    Stix,
    Stux,
    Stixr,
    Stuxr,
    Stixq,
    Stuxq,
    Stixrq,
    Stuxrq,
    Stir,
    Stur,
    Stiq,
    Stuq,
    Stirq,
    Sturq,
    Stbref,
    Stb,
    Strefr,
    Stslicer,
    Stbr,
    Strefq,
    Stbrefq,
    Stsliceq,
    Stbq,
    Strefrq,
    Stbrefrq,
    Stslicerq,
    Stbrq,
    Strefconst,
    Stref2const,
    Endxc,
    Stile4,
    Stule4,
    Stile8,
    Stule8,
    Bdepth,
    Bbits,
    Brefs,
    Bbitrefs,
    Brembits,
    Bremrefs,
    Brembitrefs,
    BchkbitsShort,
    BchkbitsLong,
    Bchkrefs,
    Bchkbitrefs,
    BchkbitsqShort,
    BchkbitsqLong,
    Bchkrefsq,
    Bchkbitrefsq,
    Stzeroes,
    Stones,
    Stsame,
    Stsliceconst,
    Ctos,
    Ends,
    Ldi,
    Ldu,
    Ldref,
    Ldrefrtos,
    Ldslice,
    Ldix,
    Ldux,
    Pldix,
    Pldux,
    Ldixq,
    Lduxq,
    Pldixq,
    Plduxq,
    Pldi,
    Pldu,
    Ldiq,
    Lduq,
    Pldiq,
    Plduq,
    Plduz,
    Ldslicex,
    Pldslicex,
    Ldslicexq,
    Pldslicexq,
    Pldslice,
    Ldsliceq,
    Pldsliceq,
    Sdskipfirst,
    Sdcutlast,
    Sdskiplast,
    Sdsubstr,
    Sdbeginsx,
    Sdbeginsxq,
    Sdbegins,
    Sdbeginsq,
    Scutfirst,
    Sskipfirst,
    Scutlast,
    Sskiplast,
    Subslice,
    Split,
    Splitq,
    Xctos,
    Xload,
    Xloadq,
    Schkbits,
    Schkrefs,
    Schkbitrefs,
    Schkbitsq,
    Schkrefsq,
    Schkbitrefsq,
    Pldrefvar,
    Sbits,
    Srefs,
    Sbitrefs,
    Pldref,
    Pldrefidx,
    Ldile4,
    Ldule4,
    Ldile8,
    Ldule8,
    Pldile4,
    Pldule4,
    Pldile8,
    Pldule8,
    Ldile4q,
    Ldule4q,
    Ldile8q,
    Ldule8q,
    Pldile4q,
    Pldule4q,
    Pldile8q,
    Pldule8q,
    Ldzeroes,
    Ldones,
    Ldsame,
    Sdepth,
    Cdepth,
    Callx,
    Jmpx,
    Callxargs,
    Jmpxargs,
    Retargs,
    Ret,
    Retalt,
    Retbool,
    Callcc,
    Jmpxdata,
    Callccargs,
    Callxva,
    Retva,
    Jmpxva,
    Callccva,
    Callref,
    Jmpref,
    Jmprefdata,
    Retdata,
    If,
    Ifret,
    Ifnotret,
    Ifnot,
    Ifjmp,
    Ifnotjmp,
    Ifelse,
    Ifref,
    Ifnotref,
    Ifjmpref,
    Ifnotjmpref,
    Condsel,
    Condselchk,
    Ifretalt,
    Ifnotretalt,
    Ifrefelse,
    Ifelseref,
    Ifrefelseref,
    RepeatBreak,
    RepeatendBreak,
    UntilBreak,
    UntilendBreak,
    WhileBreak,
    WhileendBreak,
    AgainBreak,
    AgainendBreak,
    Ifbitjmp,
    Ifnbitjmp,
    Ifbitjmpref,
    Ifnbitjmpref,
    Repeat,
    Repeatend,
    Until,
    Untilend,
    While,
    Whileend,
    Again,
    Againend,
    Setcontargs,
    Returnargs,
    Returnva,
    Setcontva,
    Setnumva,
    Bless,
    Blessva,
    Pushctr,
    Popctr,
    Setcontctr,
    Setretctr,
    Setaltctr,
    Popsave,
    Save,
    Savealt,
    Saveboth,
    Pushctrx,
    Popctrx,
    Setcontctrx,
    Compos,
    Composalt,
    Composboth,
    Atexit,
    Atexitalt,
    Setexitalt,
    Thenret,
    Thenretalt,
    Invert,
    Booleval,
    Samealt,
    SamealtSave,
    Blessargs,
    CallShort,
    CallLong,
    Jmp,
    Prepare,
    ThrowShort,
    ThrowifShort,
    ThrowifnotShort,
    ThrowLong,
    Throwarg,
    ThrowifLong,
    Throwargif,
    ThrowifnotLong,
    Throwargifnot,
    Throwany,
    Throwargany,
    Throwanyif,
    Throwarganyif,
    Throwanyifnot,
    Throwarganyifnot,
    Try,
    Tryargs,
    Ldgrams,
    Ldvarint16,
    Stgrams,
    Stvarint16,
    Ldvaruint32,
    Ldvarint32,
    Stvaruint32,
    Stvarint32,
    Ldmsgaddr(Variant),
    Parsemsgaddr(Variant),
    RewriteStdAddr(Variant),
    RewriteVarAddr(Variant),
    Sendrawmsg,
    Rawreserve,
    Rawreservex,
    Setcode,
    Setlibcode,
    Changelib,
    Stdict,
    Skipdict,
    Lddicts,
    Plddicts,
    Lddict,
    Plddict,
    Lddictq,
    Plddictq,
    Dictget,
    Dictgetref,
    Dictiget,
    Dictigetref,
    Dictuget,
    Dictugetref,
    Dictset,
    Dictsetref,
    Dictiset,
    Dictisetref,
    Dictuset,
    Dictusetref,
    Dictsetget,
    Dictsetgetref,
    Dictisetget,
    Dictisetgetref,
    Dictusetget,
    Dictusetgetref,
    Dictreplace,
    Dictreplaceref,
    Dictireplace,
    Dictireplaceref,
    Dictureplace,
    Dictureplaceref,
    Dictreplaceget,
    Dictreplacegetref,
    Dictireplaceget,
    Dictireplacegetref,
    Dictureplaceget,
    Dictureplacegetref,
    Dictadd,
    Dictaddref,
    Dictiadd,
    Dictiaddref,
    Dictuadd,
    Dictuaddref,
    Dictaddget,
    Dictaddgetref,
    Dictiaddget,
    Dictiaddgetref,
    Dictuaddget,
    Dictuaddgetref,
    Dictsetb,
    Dictisetb,
    Dictusetb,
    Dictsetgetb,
    Dictisetgetb,
    Dictusetgetb,
    Dictreplaceb,
    Dictireplaceb,
    Dictureplaceb,
    Dictreplacegetb,
    Dictireplacegetb,
    Dictureplacegetb,
    Dictaddb,
    Dictiaddb,
    Dictuaddb,
    Dictaddgetb,
    Dictiaddgetb,
    Dictuaddgetb,
    Dictdel,
    Dictidel,
    Dictudel,
    Dictdelget,
    Dictdelgetref,
    Dictidelget,
    Dictidelgetref,
    Dictudelget,
    Dictudelgetref,
    Dictgetoptref,
    Dictigetoptref,
    Dictugetoptref,
    Dictsetgetoptref,
    Dictisetgetoptref,
    Dictusetgetoptref,
    Pfxdictset,
    Pfxdictreplace,
    Pfxdictadd,
    Pfxdictdel,
    Dictgetnext,
    Dictgetnexteq,
    Dictgetprev,
    Dictgetpreveq,
    Dictigetnext,
    Dictigetnexteq,
    Dictigetprev,
    Dictigetpreveq,
    Dictugetnext,
    Dictugetnexteq,
    Dictugetprev,
    Dictugetpreveq,
    Dictmin,
    Dictminref,
    Dictimin,
    Dictiminref,
    Dictumin,
    Dictuminref,
    Dictmax,
    Dictmaxref,
    Dictimax,
    Dictimaxref,
    Dictumax,
    Dictumaxref,
    Dictremmin,
    Dictremminref,
    Dictiremmin,
    Dictiremminref,
    Dicturemmin,
    Dicturemminref,
    Dictremmax,
    Dictremmaxref,
    Dictiremmax,
    Dictiremmaxref,
    Dicturemmax,
    Dicturemmaxref,
    Dictigetjmp,
    Dictugetjmp,
    Dictigetexec,
    Dictugetexec,
    Dictpushconst,
    Pfxdictgetq,
    Pfxdictget,
    Pfxdictgetjmp,
    Pfxdictgetexec,
    Pfxdictswitch,
    Subdictget,
    Subdictiget,
    Subdictuget,
    Subdictrpget,
    Subdictirpget,
    Subdicturpget,
    Dictigetjmpz,
    Dictugetjmpz,
    Dictigetexecz,
    Dictugetexecz,
    Accept,
    Setgaslimit,
    Buygas,
    Gramtogas,
    Gastogram,
    Commit,
    Randu256,
    Rand,
    Setrand,
    Addrand,
    Getparam,
    Now,
    Blocklt,
    Ltime,
    Randseed,
    Balance,
    MyAddr,
    ConfigRoot,
    ConfigDict,
    ConfigRefParam,
    ConfigOptParam,
    Getglobvar,
    Getglob,
    Setglobvar,
    Setglob,
    Hashcu,
    Hashsu,
    Sha256u,
    Chksignu,
    Chksigns,
    Cdatasizeq,
    Cdatasize,
    Sdatasizeq,
    Sdatasize,
    DumpStack,
    DumpStackTop,
    DumpHex,
    PrintHex,
    DumpBin,
    PrintBin,
    DumpStr,
    PrintStr,
    DebugOff,
    DebugOn,
    DumpVar,
    PrintVar,
    DumpString,
    Setcp,
    Setcpx,
}

} // verus!
