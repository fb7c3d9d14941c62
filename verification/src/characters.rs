//! The names that the library knows by itself, and the character that each stands for:
//! the character names of HTML 4, and `apos`.
//!
//! The names are listed in the order in which the table keeps them, capital letters before
//! small ones, so that each entry is added behind the ones before it.

use vstd::prelude::*;
use crate::syntax::is_reference_name;
use crate::table::ReferenceTable;

verus! {

/// `m` with the names that begin with a capital letter.
pub open spec fn capitals(m: Map<Seq<char>, Seq<char>>) -> Map<Seq<char>, Seq<char>> {
    m
        .insert("AElig"@, "\u{c6}"@)
        .insert("Aacute"@, "\u{c1}"@)
        .insert("Acirc"@, "\u{c2}"@)
        .insert("Agrave"@, "\u{c0}"@)
        .insert("Alpha"@, "\u{391}"@)
        .insert("Aring"@, "\u{c5}"@)
        .insert("Atilde"@, "\u{c3}"@)
        .insert("Auml"@, "\u{c4}"@)
        .insert("Beta"@, "\u{392}"@)
        .insert("Ccedil"@, "\u{c7}"@)
        .insert("Chi"@, "\u{3a7}"@)
        .insert("Dagger"@, "\u{2021}"@)
        .insert("Delta"@, "\u{394}"@)
        .insert("ETH"@, "\u{d0}"@)
        .insert("Eacute"@, "\u{c9}"@)
        .insert("Ecirc"@, "\u{ca}"@)
        .insert("Egrave"@, "\u{c8}"@)
        .insert("Epsilon"@, "\u{395}"@)
        .insert("Eta"@, "\u{397}"@)
        .insert("Euml"@, "\u{cb}"@)
        .insert("Gamma"@, "\u{393}"@)
        .insert("Iacute"@, "\u{cd}"@)
        .insert("Icirc"@, "\u{ce}"@)
        .insert("Igrave"@, "\u{cc}"@)
        .insert("Iota"@, "\u{399}"@)
        .insert("Iuml"@, "\u{cf}"@)
        .insert("Kappa"@, "\u{39a}"@)
        .insert("Lambda"@, "\u{39b}"@)
        .insert("Mu"@, "\u{39c}"@)
        .insert("Ntilde"@, "\u{d1}"@)
        .insert("Nu"@, "\u{39d}"@)
        .insert("OElig"@, "\u{152}"@)
        .insert("Oacute"@, "\u{d3}"@)
        .insert("Ocirc"@, "\u{d4}"@)
        .insert("Ograve"@, "\u{d2}"@)
        .insert("Omega"@, "\u{3a9}"@)
        .insert("Omicron"@, "\u{39f}"@)
        .insert("Oslash"@, "\u{d8}"@)
        .insert("Otilde"@, "\u{d5}"@)
        .insert("Ouml"@, "\u{d6}"@)
        .insert("Phi"@, "\u{3a6}"@)
        .insert("Pi"@, "\u{3a0}"@)
        .insert("Prime"@, "\u{2033}"@)
        .insert("Psi"@, "\u{3a8}"@)
        .insert("Rho"@, "\u{3a1}"@)
        .insert("Scaron"@, "\u{160}"@)
        .insert("Sigma"@, "\u{3a3}"@)
        .insert("THORN"@, "\u{de}"@)
        .insert("Tau"@, "\u{3a4}"@)
        .insert("Theta"@, "\u{398}"@)
        .insert("Uacute"@, "\u{da}"@)
        .insert("Ucirc"@, "\u{db}"@)
        .insert("Ugrave"@, "\u{d9}"@)
        .insert("Upsilon"@, "\u{3a5}"@)
        .insert("Uuml"@, "\u{dc}"@)
        .insert("Xi"@, "\u{39e}"@)
        .insert("Yacute"@, "\u{dd}"@)
        .insert("Yuml"@, "\u{178}"@)
        .insert("Zeta"@, "\u{396}"@)
}

/// `m` with the names that begin with a letter from `a` to `e`.
pub open spec fn a_to_e(m: Map<Seq<char>, Seq<char>>) -> Map<Seq<char>, Seq<char>> {
    m
        .insert("aacute"@, "\u{e1}"@)
        .insert("acirc"@, "\u{e2}"@)
        .insert("acute"@, "\u{b4}"@)
        .insert("aelig"@, "\u{e6}"@)
        .insert("agrave"@, "\u{e0}"@)
        .insert("alefsym"@, "\u{2135}"@)
        .insert("alpha"@, "\u{3b1}"@)
        .insert("amp"@, "&"@)
        .insert("and"@, "\u{2227}"@)
        .insert("ang"@, "\u{2220}"@)
        .insert("apos"@, "'"@)
        .insert("aring"@, "\u{e5}"@)
        .insert("asymp"@, "\u{2248}"@)
        .insert("atilde"@, "\u{e3}"@)
        .insert("auml"@, "\u{e4}"@)
        .insert("bdquo"@, "\u{201e}"@)
        .insert("beta"@, "\u{3b2}"@)
        .insert("brvbar"@, "\u{a6}"@)
        .insert("bull"@, "\u{2022}"@)
        .insert("cap"@, "\u{2229}"@)
        .insert("ccedil"@, "\u{e7}"@)
        .insert("cedil"@, "\u{b8}"@)
        .insert("cent"@, "\u{a2}"@)
        .insert("chi"@, "\u{3c7}"@)
        .insert("circ"@, "\u{2c6}"@)
        .insert("clubs"@, "\u{2663}"@)
        .insert("cong"@, "\u{2245}"@)
        .insert("copy"@, "\u{a9}"@)
        .insert("crarr"@, "\u{21b5}"@)
        .insert("cup"@, "\u{222a}"@)
        .insert("curren"@, "\u{a4}"@)
        .insert("dArr"@, "\u{21d3}"@)
        .insert("dagger"@, "\u{2020}"@)
        .insert("darr"@, "\u{2193}"@)
        .insert("deg"@, "\u{b0}"@)
        .insert("delta"@, "\u{3b4}"@)
        .insert("diams"@, "\u{2666}"@)
        .insert("divide"@, "\u{f7}"@)
        .insert("eacute"@, "\u{e9}"@)
        .insert("ecirc"@, "\u{ea}"@)
        .insert("egrave"@, "\u{e8}"@)
        .insert("empty"@, "\u{2205}"@)
        .insert("emsp"@, "\u{2003}"@)
        .insert("ensp"@, "\u{2002}"@)
        .insert("epsilon"@, "\u{3b5}"@)
        .insert("equiv"@, "\u{2261}"@)
        .insert("eta"@, "\u{3b7}"@)
        .insert("eth"@, "\u{f0}"@)
        .insert("euml"@, "\u{eb}"@)
        .insert("euro"@, "\u{20ac}"@)
        .insert("exist"@, "\u{2203}"@)
}

/// `m` with the names that begin with a letter from `f` to `n`.
pub open spec fn f_to_n(m: Map<Seq<char>, Seq<char>>) -> Map<Seq<char>, Seq<char>> {
    m
        .insert("fnof"@, "\u{192}"@)
        .insert("forall"@, "\u{2200}"@)
        .insert("frac12"@, "\u{bd}"@)
        .insert("frac14"@, "\u{bc}"@)
        .insert("frac34"@, "\u{be}"@)
        .insert("frasl"@, "\u{2044}"@)
        .insert("gamma"@, "\u{3b3}"@)
        .insert("ge"@, "\u{2265}"@)
        .insert("gt"@, ">"@)
        .insert("hArr"@, "\u{21d4}"@)
        .insert("harr"@, "\u{2194}"@)
        .insert("hearts"@, "\u{2665}"@)
        .insert("hellip"@, "\u{2026}"@)
        .insert("iacute"@, "\u{ed}"@)
        .insert("icirc"@, "\u{ee}"@)
        .insert("iexcl"@, "\u{a1}"@)
        .insert("igrave"@, "\u{ec}"@)
        .insert("image"@, "\u{2111}"@)
        .insert("infin"@, "\u{221e}"@)
        .insert("int"@, "\u{222b}"@)
        .insert("iota"@, "\u{3b9}"@)
        .insert("iquest"@, "\u{bf}"@)
        .insert("isin"@, "\u{2208}"@)
        .insert("iuml"@, "\u{ef}"@)
        .insert("kappa"@, "\u{3ba}"@)
        .insert("lArr"@, "\u{21d0}"@)
        .insert("lambda"@, "\u{3bb}"@)
        .insert("lang"@, "\u{27e8}"@)
        .insert("laquo"@, "\u{ab}"@)
        .insert("larr"@, "\u{2190}"@)
        .insert("lceil"@, "\u{2308}"@)
        .insert("ldquo"@, "\u{201c}"@)
        .insert("le"@, "\u{2264}"@)
        .insert("lfloor"@, "\u{230a}"@)
        .insert("lowast"@, "\u{2217}"@)
        .insert("loz"@, "\u{25ca}"@)
        .insert("lrm"@, "\u{200e}"@)
        .insert("lsaquo"@, "\u{2039}"@)
        .insert("lsquo"@, "\u{2018}"@)
        .insert("lt"@, "<"@)
        .insert("macr"@, "\u{af}"@)
        .insert("mdash"@, "\u{2014}"@)
        .insert("micro"@, "\u{b5}"@)
        .insert("middot"@, "\u{b7}"@)
        .insert("minus"@, "\u{2212}"@)
        .insert("mu"@, "\u{3bc}"@)
        .insert("nabla"@, "\u{2207}"@)
        .insert("nbsp"@, "\u{a0}"@)
        .insert("ndash"@, "\u{2013}"@)
        .insert("ne"@, "\u{2260}"@)
        .insert("ni"@, "\u{220b}"@)
        .insert("not"@, "\u{ac}"@)
        .insert("notin"@, "\u{2209}"@)
        .insert("nsub"@, "\u{2284}"@)
        .insert("ntilde"@, "\u{f1}"@)
        .insert("nu"@, "\u{3bd}"@)
}

/// `m` with the names that begin with a letter from `o` to `r`.
pub open spec fn o_to_r(m: Map<Seq<char>, Seq<char>>) -> Map<Seq<char>, Seq<char>> {
    m
        .insert("oacute"@, "\u{f3}"@)
        .insert("ocirc"@, "\u{f4}"@)
        .insert("oelig"@, "\u{153}"@)
        .insert("ograve"@, "\u{f2}"@)
        .insert("oline"@, "\u{203e}"@)
        .insert("omega"@, "\u{3c9}"@)
        .insert("omicron"@, "\u{3bf}"@)
        .insert("oplus"@, "\u{2295}"@)
        .insert("or"@, "\u{2228}"@)
        .insert("ordf"@, "\u{aa}"@)
        .insert("ordm"@, "\u{ba}"@)
        .insert("oslash"@, "\u{f8}"@)
        .insert("otilde"@, "\u{f5}"@)
        .insert("otimes"@, "\u{2297}"@)
        .insert("ouml"@, "\u{f6}"@)
        .insert("para"@, "\u{b6}"@)
        .insert("part"@, "\u{2202}"@)
        .insert("permil"@, "\u{2030}"@)
        .insert("perp"@, "\u{22a5}"@)
        .insert("phi"@, "\u{3c6}"@)
        .insert("pi"@, "\u{3c0}"@)
        .insert("piv"@, "\u{3d6}"@)
        .insert("plusmn"@, "\u{b1}"@)
        .insert("pound"@, "\u{a3}"@)
        .insert("prime"@, "\u{2032}"@)
        .insert("prod"@, "\u{220f}"@)
        .insert("prop"@, "\u{221d}"@)
        .insert("psi"@, "\u{3c8}"@)
        .insert("quot"@, "\""@)
        .insert("rArr"@, "\u{21d2}"@)
        .insert("radic"@, "\u{221a}"@)
        .insert("rang"@, "\u{27e9}"@)
        .insert("raquo"@, "\u{bb}"@)
        .insert("rarr"@, "\u{2192}"@)
        .insert("rceil"@, "\u{2309}"@)
        .insert("rdquo"@, "\u{201d}"@)
        .insert("real"@, "\u{211c}"@)
        .insert("reg"@, "\u{ae}"@)
        .insert("rfloor"@, "\u{230b}"@)
        .insert("rho"@, "\u{3c1}"@)
        .insert("rlm"@, "\u{200f}"@)
        .insert("rsaquo"@, "\u{203a}"@)
        .insert("rsquo"@, "\u{2019}"@)
}

/// `m` with the names that begin with a letter from `s` to `z`.
pub open spec fn s_to_z(m: Map<Seq<char>, Seq<char>>) -> Map<Seq<char>, Seq<char>> {
    m
        .insert("sbquo"@, "\u{201a}"@)
        .insert("scaron"@, "\u{161}"@)
        .insert("sdot"@, "\u{22c5}"@)
        .insert("sect"@, "\u{a7}"@)
        .insert("shy"@, "\u{ad}"@)
        .insert("sigma"@, "\u{3c3}"@)
        .insert("sigmaf"@, "\u{3c2}"@)
        .insert("sim"@, "\u{223c}"@)
        .insert("spades"@, "\u{2660}"@)
        .insert("sub"@, "\u{2282}"@)
        .insert("sube"@, "\u{2286}"@)
        .insert("sum"@, "\u{2211}"@)
        .insert("sup"@, "\u{2283}"@)
        .insert("sup1"@, "\u{b9}"@)
        .insert("sup2"@, "\u{b2}"@)
        .insert("sup3"@, "\u{b3}"@)
        .insert("supe"@, "\u{2287}"@)
        .insert("szlig"@, "\u{df}"@)
        .insert("tau"@, "\u{3c4}"@)
        .insert("there4"@, "\u{2234}"@)
        .insert("theta"@, "\u{3b8}"@)
        .insert("thetasym"@, "\u{3d1}"@)
        .insert("thinsp"@, "\u{2009}"@)
        .insert("thorn"@, "\u{fe}"@)
        .insert("tilde"@, "\u{2dc}"@)
        .insert("times"@, "\u{d7}"@)
        .insert("trade"@, "\u{2122}"@)
        .insert("uArr"@, "\u{21d1}"@)
        .insert("uacute"@, "\u{fa}"@)
        .insert("uarr"@, "\u{2191}"@)
        .insert("ucirc"@, "\u{fb}"@)
        .insert("ugrave"@, "\u{f9}"@)
        .insert("uml"@, "\u{a8}"@)
        .insert("upsih"@, "\u{3d2}"@)
        .insert("upsilon"@, "\u{3c5}"@)
        .insert("uuml"@, "\u{fc}"@)
        .insert("weierp"@, "\u{2118}"@)
        .insert("xi"@, "\u{3be}"@)
        .insert("yacute"@, "\u{fd}"@)
        .insert("yen"@, "\u{a5}"@)
        .insert("yuml"@, "\u{ff}"@)
        .insert("zeta"@, "\u{3b6}"@)
        .insert("zwj"@, "\u{200d}"@)
        .insert("zwnj"@, "\u{200c}"@)
}

/// What each of the names that the library knows by itself stands for.
pub open spec fn character_map() -> Map<Seq<char>, Seq<char>> {
    s_to_z(o_to_r(f_to_n(a_to_e(capitals(Map::empty())))))
}

/// Adds the names that begin with a capital letter.
fn add_capitals(table: &mut ReferenceTable)
    ensures
        final(table)@ == capitals(old(table)@),
{
    proof {
        reveal_strlit("AElig");
        reveal_strlit("Aacute");
        reveal_strlit("Acirc");
        reveal_strlit("Agrave");
        reveal_strlit("Alpha");
        reveal_strlit("Aring");
        reveal_strlit("Atilde");
        reveal_strlit("Auml");
        reveal_strlit("Beta");
        reveal_strlit("Ccedil");
        reveal_strlit("Chi");
        reveal_strlit("Dagger");
        reveal_strlit("Delta");
        reveal_strlit("ETH");
        reveal_strlit("Eacute");
        reveal_strlit("Ecirc");
        reveal_strlit("Egrave");
        reveal_strlit("Epsilon");
        reveal_strlit("Eta");
        reveal_strlit("Euml");
        reveal_strlit("Gamma");
        reveal_strlit("Iacute");
        reveal_strlit("Icirc");
        reveal_strlit("Igrave");
        reveal_strlit("Iota");
        reveal_strlit("Iuml");
        reveal_strlit("Kappa");
        reveal_strlit("Lambda");
        reveal_strlit("Mu");
        reveal_strlit("Ntilde");
        reveal_strlit("Nu");
        reveal_strlit("OElig");
        reveal_strlit("Oacute");
        reveal_strlit("Ocirc");
        reveal_strlit("Ograve");
        reveal_strlit("Omega");
        reveal_strlit("Omicron");
        reveal_strlit("Oslash");
        reveal_strlit("Otilde");
        reveal_strlit("Ouml");
        reveal_strlit("Phi");
        reveal_strlit("Pi");
        reveal_strlit("Prime");
        reveal_strlit("Psi");
        reveal_strlit("Rho");
        reveal_strlit("Scaron");
        reveal_strlit("Sigma");
        reveal_strlit("THORN");
        reveal_strlit("Tau");
        reveal_strlit("Theta");
        reveal_strlit("Uacute");
        reveal_strlit("Ucirc");
        reveal_strlit("Ugrave");
        reveal_strlit("Upsilon");
        reveal_strlit("Uuml");
        reveal_strlit("Xi");
        reveal_strlit("Yacute");
        reveal_strlit("Yuml");
        reveal_strlit("Zeta");
    }
    table.put("AElig", "\u{c6}");
    table.put("Aacute", "\u{c1}");
    table.put("Acirc", "\u{c2}");
    table.put("Agrave", "\u{c0}");
    table.put("Alpha", "\u{391}");
    table.put("Aring", "\u{c5}");
    table.put("Atilde", "\u{c3}");
    table.put("Auml", "\u{c4}");
    table.put("Beta", "\u{392}");
    table.put("Ccedil", "\u{c7}");
    table.put("Chi", "\u{3a7}");
    table.put("Dagger", "\u{2021}");
    table.put("Delta", "\u{394}");
    table.put("ETH", "\u{d0}");
    table.put("Eacute", "\u{c9}");
    table.put("Ecirc", "\u{ca}");
    table.put("Egrave", "\u{c8}");
    table.put("Epsilon", "\u{395}");
    table.put("Eta", "\u{397}");
    table.put("Euml", "\u{cb}");
    table.put("Gamma", "\u{393}");
    table.put("Iacute", "\u{cd}");
    table.put("Icirc", "\u{ce}");
    table.put("Igrave", "\u{cc}");
    table.put("Iota", "\u{399}");
    table.put("Iuml", "\u{cf}");
    table.put("Kappa", "\u{39a}");
    table.put("Lambda", "\u{39b}");
    table.put("Mu", "\u{39c}");
    table.put("Ntilde", "\u{d1}");
    table.put("Nu", "\u{39d}");
    table.put("OElig", "\u{152}");
    table.put("Oacute", "\u{d3}");
    table.put("Ocirc", "\u{d4}");
    table.put("Ograve", "\u{d2}");
    table.put("Omega", "\u{3a9}");
    table.put("Omicron", "\u{39f}");
    table.put("Oslash", "\u{d8}");
    table.put("Otilde", "\u{d5}");
    table.put("Ouml", "\u{d6}");
    table.put("Phi", "\u{3a6}");
    table.put("Pi", "\u{3a0}");
    table.put("Prime", "\u{2033}");
    table.put("Psi", "\u{3a8}");
    table.put("Rho", "\u{3a1}");
    table.put("Scaron", "\u{160}");
    table.put("Sigma", "\u{3a3}");
    table.put("THORN", "\u{de}");
    table.put("Tau", "\u{3a4}");
    table.put("Theta", "\u{398}");
    table.put("Uacute", "\u{da}");
    table.put("Ucirc", "\u{db}");
    table.put("Ugrave", "\u{d9}");
    table.put("Upsilon", "\u{3a5}");
    table.put("Uuml", "\u{dc}");
    table.put("Xi", "\u{39e}");
    table.put("Yacute", "\u{dd}");
    table.put("Yuml", "\u{178}");
    table.put("Zeta", "\u{396}");
}

/// Each of the names that begin with a capital letter is one that a reference can be written with.
proof fn lemma_capitals(m: Map<Seq<char>, Seq<char>>, name: Seq<char>)
    requires
        capitals(m).contains_key(name),
    ensures
        m.contains_key(name) || is_reference_name(name),
{
    reveal_strlit("AElig");
    reveal_strlit("Aacute");
    reveal_strlit("Acirc");
    reveal_strlit("Agrave");
    reveal_strlit("Alpha");
    reveal_strlit("Aring");
    reveal_strlit("Atilde");
    reveal_strlit("Auml");
    reveal_strlit("Beta");
    reveal_strlit("Ccedil");
    reveal_strlit("Chi");
    reveal_strlit("Dagger");
    reveal_strlit("Delta");
    reveal_strlit("ETH");
    reveal_strlit("Eacute");
    reveal_strlit("Ecirc");
    reveal_strlit("Egrave");
    reveal_strlit("Epsilon");
    reveal_strlit("Eta");
    reveal_strlit("Euml");
    reveal_strlit("Gamma");
    reveal_strlit("Iacute");
    reveal_strlit("Icirc");
    reveal_strlit("Igrave");
    reveal_strlit("Iota");
    reveal_strlit("Iuml");
    reveal_strlit("Kappa");
    reveal_strlit("Lambda");
    reveal_strlit("Mu");
    reveal_strlit("Ntilde");
    reveal_strlit("Nu");
    reveal_strlit("OElig");
    reveal_strlit("Oacute");
    reveal_strlit("Ocirc");
    reveal_strlit("Ograve");
    reveal_strlit("Omega");
    reveal_strlit("Omicron");
    reveal_strlit("Oslash");
    reveal_strlit("Otilde");
    reveal_strlit("Ouml");
    reveal_strlit("Phi");
    reveal_strlit("Pi");
    reveal_strlit("Prime");
    reveal_strlit("Psi");
    reveal_strlit("Rho");
    reveal_strlit("Scaron");
    reveal_strlit("Sigma");
    reveal_strlit("THORN");
    reveal_strlit("Tau");
    reveal_strlit("Theta");
    reveal_strlit("Uacute");
    reveal_strlit("Ucirc");
    reveal_strlit("Ugrave");
    reveal_strlit("Upsilon");
    reveal_strlit("Uuml");
    reveal_strlit("Xi");
    reveal_strlit("Yacute");
    reveal_strlit("Yuml");
    reveal_strlit("Zeta");
}

/// Adds the names that begin with a letter from `a` to `e`.
fn add_a_to_e(table: &mut ReferenceTable)
    ensures
        final(table)@ == a_to_e(old(table)@),
{
    proof {
        reveal_strlit("aacute");
        reveal_strlit("acirc");
        reveal_strlit("acute");
        reveal_strlit("aelig");
        reveal_strlit("agrave");
        reveal_strlit("alefsym");
        reveal_strlit("alpha");
        reveal_strlit("amp");
        reveal_strlit("and");
        reveal_strlit("ang");
        reveal_strlit("apos");
        reveal_strlit("aring");
        reveal_strlit("asymp");
        reveal_strlit("atilde");
        reveal_strlit("auml");
        reveal_strlit("bdquo");
        reveal_strlit("beta");
        reveal_strlit("brvbar");
        reveal_strlit("bull");
        reveal_strlit("cap");
        reveal_strlit("ccedil");
        reveal_strlit("cedil");
        reveal_strlit("cent");
        reveal_strlit("chi");
        reveal_strlit("circ");
        reveal_strlit("clubs");
        reveal_strlit("cong");
        reveal_strlit("copy");
        reveal_strlit("crarr");
        reveal_strlit("cup");
        reveal_strlit("curren");
        reveal_strlit("dArr");
        reveal_strlit("dagger");
        reveal_strlit("darr");
        reveal_strlit("deg");
        reveal_strlit("delta");
        reveal_strlit("diams");
        reveal_strlit("divide");
        reveal_strlit("eacute");
        reveal_strlit("ecirc");
        reveal_strlit("egrave");
        reveal_strlit("empty");
        reveal_strlit("emsp");
        reveal_strlit("ensp");
        reveal_strlit("epsilon");
        reveal_strlit("equiv");
        reveal_strlit("eta");
        reveal_strlit("eth");
        reveal_strlit("euml");
        reveal_strlit("euro");
        reveal_strlit("exist");
    }
    table.put("aacute", "\u{e1}");
    table.put("acirc", "\u{e2}");
    table.put("acute", "\u{b4}");
    table.put("aelig", "\u{e6}");
    table.put("agrave", "\u{e0}");
    table.put("alefsym", "\u{2135}");
    table.put("alpha", "\u{3b1}");
    table.put("amp", "&");
    table.put("and", "\u{2227}");
    table.put("ang", "\u{2220}");
    table.put("apos", "'");
    table.put("aring", "\u{e5}");
    table.put("asymp", "\u{2248}");
    table.put("atilde", "\u{e3}");
    table.put("auml", "\u{e4}");
    table.put("bdquo", "\u{201e}");
    table.put("beta", "\u{3b2}");
    table.put("brvbar", "\u{a6}");
    table.put("bull", "\u{2022}");
    table.put("cap", "\u{2229}");
    table.put("ccedil", "\u{e7}");
    table.put("cedil", "\u{b8}");
    table.put("cent", "\u{a2}");
    table.put("chi", "\u{3c7}");
    table.put("circ", "\u{2c6}");
    table.put("clubs", "\u{2663}");
    table.put("cong", "\u{2245}");
    table.put("copy", "\u{a9}");
    table.put("crarr", "\u{21b5}");
    table.put("cup", "\u{222a}");
    table.put("curren", "\u{a4}");
    table.put("dArr", "\u{21d3}");
    table.put("dagger", "\u{2020}");
    table.put("darr", "\u{2193}");
    table.put("deg", "\u{b0}");
    table.put("delta", "\u{3b4}");
    table.put("diams", "\u{2666}");
    table.put("divide", "\u{f7}");
    table.put("eacute", "\u{e9}");
    table.put("ecirc", "\u{ea}");
    table.put("egrave", "\u{e8}");
    table.put("empty", "\u{2205}");
    table.put("emsp", "\u{2003}");
    table.put("ensp", "\u{2002}");
    table.put("epsilon", "\u{3b5}");
    table.put("equiv", "\u{2261}");
    table.put("eta", "\u{3b7}");
    table.put("eth", "\u{f0}");
    table.put("euml", "\u{eb}");
    table.put("euro", "\u{20ac}");
    table.put("exist", "\u{2203}");
}

/// Each of the names that begin with a letter from `a` to `e` is one that a reference can be written with.
proof fn lemma_a_to_e(m: Map<Seq<char>, Seq<char>>, name: Seq<char>)
    requires
        a_to_e(m).contains_key(name),
    ensures
        m.contains_key(name) || is_reference_name(name),
{
    reveal_strlit("aacute");
    reveal_strlit("acirc");
    reveal_strlit("acute");
    reveal_strlit("aelig");
    reveal_strlit("agrave");
    reveal_strlit("alefsym");
    reveal_strlit("alpha");
    reveal_strlit("amp");
    reveal_strlit("and");
    reveal_strlit("ang");
    reveal_strlit("apos");
    reveal_strlit("aring");
    reveal_strlit("asymp");
    reveal_strlit("atilde");
    reveal_strlit("auml");
    reveal_strlit("bdquo");
    reveal_strlit("beta");
    reveal_strlit("brvbar");
    reveal_strlit("bull");
    reveal_strlit("cap");
    reveal_strlit("ccedil");
    reveal_strlit("cedil");
    reveal_strlit("cent");
    reveal_strlit("chi");
    reveal_strlit("circ");
    reveal_strlit("clubs");
    reveal_strlit("cong");
    reveal_strlit("copy");
    reveal_strlit("crarr");
    reveal_strlit("cup");
    reveal_strlit("curren");
    reveal_strlit("dArr");
    reveal_strlit("dagger");
    reveal_strlit("darr");
    reveal_strlit("deg");
    reveal_strlit("delta");
    reveal_strlit("diams");
    reveal_strlit("divide");
    reveal_strlit("eacute");
    reveal_strlit("ecirc");
    reveal_strlit("egrave");
    reveal_strlit("empty");
    reveal_strlit("emsp");
    reveal_strlit("ensp");
    reveal_strlit("epsilon");
    reveal_strlit("equiv");
    reveal_strlit("eta");
    reveal_strlit("eth");
    reveal_strlit("euml");
    reveal_strlit("euro");
    reveal_strlit("exist");
}

/// Adds the names that begin with a letter from `f` to `n`.
fn add_f_to_n(table: &mut ReferenceTable)
    ensures
        final(table)@ == f_to_n(old(table)@),
{
    proof {
        reveal_strlit("fnof");
        reveal_strlit("forall");
        reveal_strlit("frac12");
        reveal_strlit("frac14");
        reveal_strlit("frac34");
        reveal_strlit("frasl");
        reveal_strlit("gamma");
        reveal_strlit("ge");
        reveal_strlit("gt");
        reveal_strlit("hArr");
        reveal_strlit("harr");
        reveal_strlit("hearts");
        reveal_strlit("hellip");
        reveal_strlit("iacute");
        reveal_strlit("icirc");
        reveal_strlit("iexcl");
        reveal_strlit("igrave");
        reveal_strlit("image");
        reveal_strlit("infin");
        reveal_strlit("int");
        reveal_strlit("iota");
        reveal_strlit("iquest");
        reveal_strlit("isin");
        reveal_strlit("iuml");
        reveal_strlit("kappa");
        reveal_strlit("lArr");
        reveal_strlit("lambda");
        reveal_strlit("lang");
        reveal_strlit("laquo");
        reveal_strlit("larr");
        reveal_strlit("lceil");
        reveal_strlit("ldquo");
        reveal_strlit("le");
        reveal_strlit("lfloor");
        reveal_strlit("lowast");
        reveal_strlit("loz");
        reveal_strlit("lrm");
        reveal_strlit("lsaquo");
        reveal_strlit("lsquo");
        reveal_strlit("lt");
        reveal_strlit("macr");
        reveal_strlit("mdash");
        reveal_strlit("micro");
        reveal_strlit("middot");
        reveal_strlit("minus");
        reveal_strlit("mu");
        reveal_strlit("nabla");
        reveal_strlit("nbsp");
        reveal_strlit("ndash");
        reveal_strlit("ne");
        reveal_strlit("ni");
        reveal_strlit("not");
        reveal_strlit("notin");
        reveal_strlit("nsub");
        reveal_strlit("ntilde");
        reveal_strlit("nu");
    }
    table.put("fnof", "\u{192}");
    table.put("forall", "\u{2200}");
    table.put("frac12", "\u{bd}");
    table.put("frac14", "\u{bc}");
    table.put("frac34", "\u{be}");
    table.put("frasl", "\u{2044}");
    table.put("gamma", "\u{3b3}");
    table.put("ge", "\u{2265}");
    table.put("gt", ">");
    table.put("hArr", "\u{21d4}");
    table.put("harr", "\u{2194}");
    table.put("hearts", "\u{2665}");
    table.put("hellip", "\u{2026}");
    table.put("iacute", "\u{ed}");
    table.put("icirc", "\u{ee}");
    table.put("iexcl", "\u{a1}");
    table.put("igrave", "\u{ec}");
    table.put("image", "\u{2111}");
    table.put("infin", "\u{221e}");
    table.put("int", "\u{222b}");
    table.put("iota", "\u{3b9}");
    table.put("iquest", "\u{bf}");
    table.put("isin", "\u{2208}");
    table.put("iuml", "\u{ef}");
    table.put("kappa", "\u{3ba}");
    table.put("lArr", "\u{21d0}");
    table.put("lambda", "\u{3bb}");
    table.put("lang", "\u{27e8}");
    table.put("laquo", "\u{ab}");
    table.put("larr", "\u{2190}");
    table.put("lceil", "\u{2308}");
    table.put("ldquo", "\u{201c}");
    table.put("le", "\u{2264}");
    table.put("lfloor", "\u{230a}");
    table.put("lowast", "\u{2217}");
    table.put("loz", "\u{25ca}");
    table.put("lrm", "\u{200e}");
    table.put("lsaquo", "\u{2039}");
    table.put("lsquo", "\u{2018}");
    table.put("lt", "<");
    table.put("macr", "\u{af}");
    table.put("mdash", "\u{2014}");
    table.put("micro", "\u{b5}");
    table.put("middot", "\u{b7}");
    table.put("minus", "\u{2212}");
    table.put("mu", "\u{3bc}");
    table.put("nabla", "\u{2207}");
    table.put("nbsp", "\u{a0}");
    table.put("ndash", "\u{2013}");
    table.put("ne", "\u{2260}");
    table.put("ni", "\u{220b}");
    table.put("not", "\u{ac}");
    table.put("notin", "\u{2209}");
    table.put("nsub", "\u{2284}");
    table.put("ntilde", "\u{f1}");
    table.put("nu", "\u{3bd}");
}

/// Each of the names that begin with a letter from `f` to `n` is one that a reference can be written with.
proof fn lemma_f_to_n(m: Map<Seq<char>, Seq<char>>, name: Seq<char>)
    requires
        f_to_n(m).contains_key(name),
    ensures
        m.contains_key(name) || is_reference_name(name),
{
    reveal_strlit("fnof");
    reveal_strlit("forall");
    reveal_strlit("frac12");
    reveal_strlit("frac14");
    reveal_strlit("frac34");
    reveal_strlit("frasl");
    reveal_strlit("gamma");
    reveal_strlit("ge");
    reveal_strlit("gt");
    reveal_strlit("hArr");
    reveal_strlit("harr");
    reveal_strlit("hearts");
    reveal_strlit("hellip");
    reveal_strlit("iacute");
    reveal_strlit("icirc");
    reveal_strlit("iexcl");
    reveal_strlit("igrave");
    reveal_strlit("image");
    reveal_strlit("infin");
    reveal_strlit("int");
    reveal_strlit("iota");
    reveal_strlit("iquest");
    reveal_strlit("isin");
    reveal_strlit("iuml");
    reveal_strlit("kappa");
    reveal_strlit("lArr");
    reveal_strlit("lambda");
    reveal_strlit("lang");
    reveal_strlit("laquo");
    reveal_strlit("larr");
    reveal_strlit("lceil");
    reveal_strlit("ldquo");
    reveal_strlit("le");
    reveal_strlit("lfloor");
    reveal_strlit("lowast");
    reveal_strlit("loz");
    reveal_strlit("lrm");
    reveal_strlit("lsaquo");
    reveal_strlit("lsquo");
    reveal_strlit("lt");
    reveal_strlit("macr");
    reveal_strlit("mdash");
    reveal_strlit("micro");
    reveal_strlit("middot");
    reveal_strlit("minus");
    reveal_strlit("mu");
    reveal_strlit("nabla");
    reveal_strlit("nbsp");
    reveal_strlit("ndash");
    reveal_strlit("ne");
    reveal_strlit("ni");
    reveal_strlit("not");
    reveal_strlit("notin");
    reveal_strlit("nsub");
    reveal_strlit("ntilde");
    reveal_strlit("nu");
}

/// Adds the names that begin with a letter from `o` to `r`.
fn add_o_to_r(table: &mut ReferenceTable)
    ensures
        final(table)@ == o_to_r(old(table)@),
{
    proof {
        reveal_strlit("oacute");
        reveal_strlit("ocirc");
        reveal_strlit("oelig");
        reveal_strlit("ograve");
        reveal_strlit("oline");
        reveal_strlit("omega");
        reveal_strlit("omicron");
        reveal_strlit("oplus");
        reveal_strlit("or");
        reveal_strlit("ordf");
        reveal_strlit("ordm");
        reveal_strlit("oslash");
        reveal_strlit("otilde");
        reveal_strlit("otimes");
        reveal_strlit("ouml");
        reveal_strlit("para");
        reveal_strlit("part");
        reveal_strlit("permil");
        reveal_strlit("perp");
        reveal_strlit("phi");
        reveal_strlit("pi");
        reveal_strlit("piv");
        reveal_strlit("plusmn");
        reveal_strlit("pound");
        reveal_strlit("prime");
        reveal_strlit("prod");
        reveal_strlit("prop");
        reveal_strlit("psi");
        reveal_strlit("quot");
        reveal_strlit("rArr");
        reveal_strlit("radic");
        reveal_strlit("rang");
        reveal_strlit("raquo");
        reveal_strlit("rarr");
        reveal_strlit("rceil");
        reveal_strlit("rdquo");
        reveal_strlit("real");
        reveal_strlit("reg");
        reveal_strlit("rfloor");
        reveal_strlit("rho");
        reveal_strlit("rlm");
        reveal_strlit("rsaquo");
        reveal_strlit("rsquo");
    }
    table.put("oacute", "\u{f3}");
    table.put("ocirc", "\u{f4}");
    table.put("oelig", "\u{153}");
    table.put("ograve", "\u{f2}");
    table.put("oline", "\u{203e}");
    table.put("omega", "\u{3c9}");
    table.put("omicron", "\u{3bf}");
    table.put("oplus", "\u{2295}");
    table.put("or", "\u{2228}");
    table.put("ordf", "\u{aa}");
    table.put("ordm", "\u{ba}");
    table.put("oslash", "\u{f8}");
    table.put("otilde", "\u{f5}");
    table.put("otimes", "\u{2297}");
    table.put("ouml", "\u{f6}");
    table.put("para", "\u{b6}");
    table.put("part", "\u{2202}");
    table.put("permil", "\u{2030}");
    table.put("perp", "\u{22a5}");
    table.put("phi", "\u{3c6}");
    table.put("pi", "\u{3c0}");
    table.put("piv", "\u{3d6}");
    table.put("plusmn", "\u{b1}");
    table.put("pound", "\u{a3}");
    table.put("prime", "\u{2032}");
    table.put("prod", "\u{220f}");
    table.put("prop", "\u{221d}");
    table.put("psi", "\u{3c8}");
    table.put("quot", "\"");
    table.put("rArr", "\u{21d2}");
    table.put("radic", "\u{221a}");
    table.put("rang", "\u{27e9}");
    table.put("raquo", "\u{bb}");
    table.put("rarr", "\u{2192}");
    table.put("rceil", "\u{2309}");
    table.put("rdquo", "\u{201d}");
    table.put("real", "\u{211c}");
    table.put("reg", "\u{ae}");
    table.put("rfloor", "\u{230b}");
    table.put("rho", "\u{3c1}");
    table.put("rlm", "\u{200f}");
    table.put("rsaquo", "\u{203a}");
    table.put("rsquo", "\u{2019}");
}

/// Each of the names that begin with a letter from `o` to `r` is one that a reference can be written with.
proof fn lemma_o_to_r(m: Map<Seq<char>, Seq<char>>, name: Seq<char>)
    requires
        o_to_r(m).contains_key(name),
    ensures
        m.contains_key(name) || is_reference_name(name),
{
    reveal_strlit("oacute");
    reveal_strlit("ocirc");
    reveal_strlit("oelig");
    reveal_strlit("ograve");
    reveal_strlit("oline");
    reveal_strlit("omega");
    reveal_strlit("omicron");
    reveal_strlit("oplus");
    reveal_strlit("or");
    reveal_strlit("ordf");
    reveal_strlit("ordm");
    reveal_strlit("oslash");
    reveal_strlit("otilde");
    reveal_strlit("otimes");
    reveal_strlit("ouml");
    reveal_strlit("para");
    reveal_strlit("part");
    reveal_strlit("permil");
    reveal_strlit("perp");
    reveal_strlit("phi");
    reveal_strlit("pi");
    reveal_strlit("piv");
    reveal_strlit("plusmn");
    reveal_strlit("pound");
    reveal_strlit("prime");
    reveal_strlit("prod");
    reveal_strlit("prop");
    reveal_strlit("psi");
    reveal_strlit("quot");
    reveal_strlit("rArr");
    reveal_strlit("radic");
    reveal_strlit("rang");
    reveal_strlit("raquo");
    reveal_strlit("rarr");
    reveal_strlit("rceil");
    reveal_strlit("rdquo");
    reveal_strlit("real");
    reveal_strlit("reg");
    reveal_strlit("rfloor");
    reveal_strlit("rho");
    reveal_strlit("rlm");
    reveal_strlit("rsaquo");
    reveal_strlit("rsquo");
}

/// Adds the names that begin with a letter from `s` to `z`.
fn add_s_to_z(table: &mut ReferenceTable)
    ensures
        final(table)@ == s_to_z(old(table)@),
{
    proof {
        reveal_strlit("sbquo");
        reveal_strlit("scaron");
        reveal_strlit("sdot");
        reveal_strlit("sect");
        reveal_strlit("shy");
        reveal_strlit("sigma");
        reveal_strlit("sigmaf");
        reveal_strlit("sim");
        reveal_strlit("spades");
        reveal_strlit("sub");
        reveal_strlit("sube");
        reveal_strlit("sum");
        reveal_strlit("sup");
        reveal_strlit("sup1");
        reveal_strlit("sup2");
        reveal_strlit("sup3");
        reveal_strlit("supe");
        reveal_strlit("szlig");
        reveal_strlit("tau");
        reveal_strlit("there4");
        reveal_strlit("theta");
        reveal_strlit("thetasym");
        reveal_strlit("thinsp");
        reveal_strlit("thorn");
        reveal_strlit("tilde");
        reveal_strlit("times");
        reveal_strlit("trade");
        reveal_strlit("uArr");
        reveal_strlit("uacute");
        reveal_strlit("uarr");
        reveal_strlit("ucirc");
        reveal_strlit("ugrave");
        reveal_strlit("uml");
        reveal_strlit("upsih");
        reveal_strlit("upsilon");
        reveal_strlit("uuml");
        reveal_strlit("weierp");
        reveal_strlit("xi");
        reveal_strlit("yacute");
        reveal_strlit("yen");
        reveal_strlit("yuml");
        reveal_strlit("zeta");
        reveal_strlit("zwj");
        reveal_strlit("zwnj");
    }
    table.put("sbquo", "\u{201a}");
    table.put("scaron", "\u{161}");
    table.put("sdot", "\u{22c5}");
    table.put("sect", "\u{a7}");
    table.put("shy", "\u{ad}");
    table.put("sigma", "\u{3c3}");
    table.put("sigmaf", "\u{3c2}");
    table.put("sim", "\u{223c}");
    table.put("spades", "\u{2660}");
    table.put("sub", "\u{2282}");
    table.put("sube", "\u{2286}");
    table.put("sum", "\u{2211}");
    table.put("sup", "\u{2283}");
    table.put("sup1", "\u{b9}");
    table.put("sup2", "\u{b2}");
    table.put("sup3", "\u{b3}");
    table.put("supe", "\u{2287}");
    table.put("szlig", "\u{df}");
    table.put("tau", "\u{3c4}");
    table.put("there4", "\u{2234}");
    table.put("theta", "\u{3b8}");
    table.put("thetasym", "\u{3d1}");
    table.put("thinsp", "\u{2009}");
    table.put("thorn", "\u{fe}");
    table.put("tilde", "\u{2dc}");
    table.put("times", "\u{d7}");
    table.put("trade", "\u{2122}");
    table.put("uArr", "\u{21d1}");
    table.put("uacute", "\u{fa}");
    table.put("uarr", "\u{2191}");
    table.put("ucirc", "\u{fb}");
    table.put("ugrave", "\u{f9}");
    table.put("uml", "\u{a8}");
    table.put("upsih", "\u{3d2}");
    table.put("upsilon", "\u{3c5}");
    table.put("uuml", "\u{fc}");
    table.put("weierp", "\u{2118}");
    table.put("xi", "\u{3be}");
    table.put("yacute", "\u{fd}");
    table.put("yen", "\u{a5}");
    table.put("yuml", "\u{ff}");
    table.put("zeta", "\u{3b6}");
    table.put("zwj", "\u{200d}");
    table.put("zwnj", "\u{200c}");
}

/// Each of the names that begin with a letter from `s` to `z` is one that a reference can be written with.
proof fn lemma_s_to_z(m: Map<Seq<char>, Seq<char>>, name: Seq<char>)
    requires
        s_to_z(m).contains_key(name),
    ensures
        m.contains_key(name) || is_reference_name(name),
{
    reveal_strlit("sbquo");
    reveal_strlit("scaron");
    reveal_strlit("sdot");
    reveal_strlit("sect");
    reveal_strlit("shy");
    reveal_strlit("sigma");
    reveal_strlit("sigmaf");
    reveal_strlit("sim");
    reveal_strlit("spades");
    reveal_strlit("sub");
    reveal_strlit("sube");
    reveal_strlit("sum");
    reveal_strlit("sup");
    reveal_strlit("sup1");
    reveal_strlit("sup2");
    reveal_strlit("sup3");
    reveal_strlit("supe");
    reveal_strlit("szlig");
    reveal_strlit("tau");
    reveal_strlit("there4");
    reveal_strlit("theta");
    reveal_strlit("thetasym");
    reveal_strlit("thinsp");
    reveal_strlit("thorn");
    reveal_strlit("tilde");
    reveal_strlit("times");
    reveal_strlit("trade");
    reveal_strlit("uArr");
    reveal_strlit("uacute");
    reveal_strlit("uarr");
    reveal_strlit("ucirc");
    reveal_strlit("ugrave");
    reveal_strlit("uml");
    reveal_strlit("upsih");
    reveal_strlit("upsilon");
    reveal_strlit("uuml");
    reveal_strlit("weierp");
    reveal_strlit("xi");
    reveal_strlit("yacute");
    reveal_strlit("yen");
    reveal_strlit("yuml");
    reveal_strlit("zeta");
    reveal_strlit("zwj");
    reveal_strlit("zwnj");
}

/// Every name that the library knows by itself is one that a reference can be written
/// with: a letter, and behind it one letter or digit or more.
pub proof fn lemma_known_names(name: Seq<char>)
    requires
        character_map().contains_key(name),
    ensures
        is_reference_name(name),
{
    let m0 = Map::<Seq<char>, Seq<char>>::empty();
    let m1 = capitals(m0);
    let m2 = a_to_e(m1);
    let m3 = f_to_n(m2);
    let m4 = o_to_r(m3);
    lemma_s_to_z(m4, name);
    if m4.contains_key(name) {
        lemma_o_to_r(m3, name);
        if m3.contains_key(name) {
            lemma_f_to_n(m2, name);
            if m2.contains_key(name) {
                lemma_a_to_e(m1, name);
                if m1.contains_key(name) {
                    lemma_capitals(m0, name);
                }
            }
        }
    }
}

/// The table of the names that the library knows by itself.
pub fn characters() -> (table: ReferenceTable)
    ensures
        table@ == character_map(),
{
    let mut table = ReferenceTable::new();
    add_capitals(&mut table);
    add_a_to_e(&mut table);
    add_f_to_n(&mut table);
    add_o_to_r(&mut table);
    add_s_to_z(&mut table);
    table
}

} // verus!
