//! The Unicode character names, as tables.
//!
//! Names are in sentence case. Characters that are named by rule are held as
//! ranges with the label of the rule. Unicode version 14.
use vstd::prelude::*;

verus! {

/// The ranges of characters that are named by rule: the first and the last
/// codepoint, and the label.
pub const RANGES: [(u32, u32, &'static str); 17] = [
    (0x3400, 0x4DBF, "Cjk ideograph extension a"),
    (0x4E00, 0x9FFF, "Cjk ideograph"),
    (0xAC00, 0xD7A3, "Hangul syllable"),
    (0xD800, 0xDB7F, "Non private use high surrogate"),
    (0xDB80, 0xDBFF, "Private use high surrogate"),
    (0xDC00, 0xDFFF, "Low surrogate"),
    (0xE000, 0xF8FF, "Private use"),
    (0x17000, 0x187F7, "Tangut ideograph"),
    (0x18D00, 0x18D08, "Tangut ideograph supplement"),
    (0x20000, 0x2A6DF, "Cjk ideograph extension b"),
    (0x2A700, 0x2B738, "Cjk ideograph extension c"),
    (0x2B740, 0x2B81D, "Cjk ideograph extension d"),
    (0x2B820, 0x2CEA1, "Cjk ideograph extension e"),
    (0x2CEB0, 0x2EBE0, "Cjk ideograph extension f"),
    (0x30000, 0x3134A, "Cjk ideograph extension g"),
    (0xF0000, 0xFFFFD, "Plane 15 private use"),
    (0x100000, 0x10FFFD, "Plane 16 private use"),
];

/// The characters that have a name of their own, in parts.
pub const NAMES: [&'static str; 84] = [
    NAMES_00,
    NAMES_01,
    NAMES_02,
    NAMES_03,
    NAMES_04,
    NAMES_05,
    NAMES_06,
    NAMES_07,
    NAMES_08,
    NAMES_09,
    NAMES_10,
    NAMES_11,
    NAMES_12,
    NAMES_13,
    NAMES_14,
    NAMES_15,
    NAMES_16,
    NAMES_17,
    NAMES_18,
    NAMES_19,
    NAMES_20,
    NAMES_21,
    NAMES_22,
    NAMES_23,
    NAMES_24,
    NAMES_25,
    NAMES_26,
    NAMES_27,
    NAMES_28,
    NAMES_29,
    NAMES_30,
    NAMES_31,
    NAMES_32,
    NAMES_33,
    NAMES_34,
    NAMES_35,
    NAMES_36,
    NAMES_37,
    NAMES_38,
    NAMES_39,
    NAMES_40,
    NAMES_41,
    NAMES_42,
    NAMES_43,
    NAMES_44,
    NAMES_45,
    NAMES_46,
    NAMES_47,
    NAMES_48,
    NAMES_49,
    NAMES_50,
    NAMES_51,
    NAMES_52,
    NAMES_53,
    NAMES_54,
    NAMES_55,
    NAMES_56,
    NAMES_57,
    NAMES_58,
    NAMES_59,
    NAMES_60,
    NAMES_61,
    NAMES_62,
    NAMES_63,
    NAMES_64,
    NAMES_65,
    NAMES_66,
    NAMES_67,
    NAMES_68,
    NAMES_69,
    NAMES_70,
    NAMES_71,
    NAMES_72,
    NAMES_73,
    NAMES_74,
    NAMES_75,
    NAMES_76,
    NAMES_77,
    NAMES_78,
    NAMES_79,
    NAMES_80,
    NAMES_81,
    NAMES_82,
    NAMES_83,
];

pub const NAMES_00: &'static str = "000020 Space
000021 Exclamation mark
000022 Quotation mark
000023 Number sign
000024 Dollar sign
000025 Percent sign
000026 Ampersand
000027 Apostrophe
000028 Left parenthesis
000029 Right parenthesis
00002A Asterisk
00002B Plus sign
00002C Comma
00002D Hyphen-minus
00002E Full stop
00002F Solidus
000030 Digit zero
000031 Digit one
000032 Digit two
000033 Digit three
000034 Digit four
000035 Digit five
000036 Digit six
000037 Digit seven
000038 Digit eight
000039 Digit nine
00003A Colon
00003B Semicolon
00003C Less-than sign
00003D Equals sign
00003E Greater-than sign
00003F Question mark
000040 Commercial at
000041 Latin capital letter a
000042 Latin capital letter b
000043 Latin capital letter c
000044 Latin capital letter d
000045 Latin capital letter e
000046 Latin capital letter f
000047 Latin capital letter g
000048 Latin capital letter h
000049 Latin capital letter i
00004A Latin capital letter j
00004B Latin capital letter k
00004C Latin capital letter l
00004D Latin capital letter m
00004E Latin capital letter n
00004F Latin capital letter o
000050 Latin capital letter p
000051 Latin capital letter q
000052 Latin capital letter r
000053 Latin capital letter s
000054 Latin capital letter t
000055 Latin capital letter u
000056 Latin capital letter v
000057 Latin capital letter w
000058 Latin capital letter x
000059 Latin capital letter y
00005A Latin capital letter z
00005B Left square bracket
00005C Reverse solidus
00005D Right square bracket
00005E Circumflex accent
00005F Low line
000060 Grave accent
000061 Latin small letter a
000062 Latin small letter b
000063 Latin small letter c
000064 Latin small letter d
000065 Latin small letter e
000066 Latin small letter f
000067 Latin small letter g
000068 Latin small letter h
000069 Latin small letter i
00006A Latin small letter j
00006B Latin small letter k
00006C Latin small letter l
00006D Latin small letter m
00006E Latin small letter n
00006F Latin small letter o
000070 Latin small letter p
000071 Latin small letter q
000072 Latin small letter r
000073 Latin small letter s
000074 Latin small letter t
000075 Latin small letter u
000076 Latin small letter v
000077 Latin small letter w
000078 Latin small letter x
000079 Latin small letter y
00007A Latin small letter z
00007B Left curly bracket
00007C Vertical line
00007D Right curly bracket
00007E Tilde
0000A0 No-break space
0000A1 Inverted exclamation mark
0000A2 Cent sign
0000A3 Pound sign
0000A4 Currency sign
0000A5 Yen sign
0000A6 Broken bar
0000A7 Section sign
0000A8 Diaeresis
0000A9 Copyright sign
0000AA Feminine ordinal indicator
0000AB Left-pointing double angle quotation mark
0000AC Not sign
0000AD Soft hyphen
0000AE Registered sign
0000AF Macron
0000B0 Degree sign
0000B1 Plus-minus sign
0000B2 Superscript two
0000B3 Superscript three
0000B4 Acute accent
0000B5 Micro sign
0000B6 Pilcrow sign
0000B7 Middle dot
0000B8 Cedilla
0000B9 Superscript one
0000BA Masculine ordinal indicator
0000BB Right-pointing double angle quotation mark
0000BC Vulgar fraction one quarter
0000BD Vulgar fraction one half
0000BE Vulgar fraction three quarters
0000BF Inverted question mark
0000C0 Latin capital letter a with grave
0000C1 Latin capital letter a with acute
0000C2 Latin capital letter a with circumflex
0000C3 Latin capital letter a with tilde
0000C4 Latin capital letter a with diaeresis
0000C5 Latin capital letter a with ring above
0000C6 Latin capital letter ae
0000C7 Latin capital letter c with cedilla
0000C8 Latin capital letter e with grave
0000C9 Latin capital letter e with acute
0000CA Latin capital letter e with circumflex
0000CB Latin capital letter e with diaeresis
0000CC Latin capital letter i with grave
0000CD Latin capital letter i with acute
0000CE Latin capital letter i with circumflex
0000CF Latin capital letter i with diaeresis
0000D0 Latin capital letter eth
0000D1 Latin capital letter n with tilde
0000D2 Latin capital letter o with grave
0000D3 Latin capital letter o with acute
0000D4 Latin capital letter o with circumflex
0000D5 Latin capital letter o with tilde
0000D6 Latin capital letter o with diaeresis
0000D7 Multiplication sign
0000D8 Latin capital letter o with stroke
0000D9 Latin capital letter u with grave
0000DA Latin capital letter u with acute
0000DB Latin capital letter u with circumflex
0000DC Latin capital letter u with diaeresis
0000DD Latin capital letter y with acute
0000DE Latin capital letter thorn
0000DF Latin small letter sharp s
0000E0 Latin small letter a with grave
0000E1 Latin small letter a with acute
0000E2 Latin small letter a with circumflex
0000E3 Latin small letter a with tilde
0000E4 Latin small letter a with diaeresis
0000E5 Latin small letter a with ring above
0000E6 Latin small letter ae
0000E7 Latin small letter c with cedilla
0000E8 Latin small letter e with grave
0000E9 Latin small letter e with acute
0000EA Latin small letter e with circumflex
0000EB Latin small letter e with diaeresis
0000EC Latin small letter i with grave
0000ED Latin small letter i with acute
0000EE Latin small letter i with circumflex
0000EF Latin small letter i with diaeresis
0000F0 Latin small letter eth
0000F1 Latin small letter n with tilde
0000F2 Latin small letter o with grave
0000F3 Latin small letter o with acute
0000F4 Latin small letter o with circumflex
0000F5 Latin small letter o with tilde
0000F6 Latin small letter o with diaeresis
0000F7 Division sign
0000F8 Latin small letter o with stroke
0000F9 Latin small letter u with grave
0000FA Latin small letter u with acute
0000FB Latin small letter u with circumflex
0000FC Latin small letter u with diaeresis
0000FD Latin small letter y with acute
0000FE Latin small letter thorn
0000FF Latin small letter y with diaeresis
000100 Latin capital letter a with macron
000101 Latin small letter a with macron
000102 Latin capital letter a with breve
000103 Latin small letter a with breve
000104 Latin capital letter a with ogonek
000105 Latin small letter a with ogonek
000106 Latin capital letter c with acute
000107 Latin small letter c with acute
000108 Latin capital letter c with circumflex
000109 Latin small letter c with circumflex
00010A Latin capital letter c with dot above
00010B Latin small letter c with dot above
00010C Latin capital letter c with caron
00010D Latin small letter c with caron
00010E Latin capital letter d with caron
00010F Latin small letter d with caron
000110 Latin capital letter d with stroke
000111 Latin small letter d with stroke
000112 Latin capital letter e with macron
000113 Latin small letter e with macron
000114 Latin capital letter e with breve
000115 Latin small letter e with breve
000116 Latin capital letter e with dot above
000117 Latin small letter e with dot above
000118 Latin capital letter e with ogonek
000119 Latin small letter e with ogonek
00011A Latin capital letter e with caron
00011B Latin small letter e with caron
00011C Latin capital letter g with circumflex
00011D Latin small letter g with circumflex
00011E Latin capital letter g with breve
00011F Latin small letter g with breve
000120 Latin capital letter g with dot above
000121 Latin small letter g with dot above
000122 Latin capital letter g with cedilla
000123 Latin small letter g with cedilla
000124 Latin capital letter h with circumflex
000125 Latin small letter h with circumflex
000126 Latin capital letter h with stroke
000127 Latin small letter h with stroke
000128 Latin capital letter i with tilde
000129 Latin small letter i with tilde
00012A Latin capital letter i with macron
00012B Latin small letter i with macron
00012C Latin capital letter i with breve
00012D Latin small letter i with breve
00012E Latin capital letter i with ogonek
00012F Latin small letter i with ogonek
000130 Latin capital letter i with dot above
000131 Latin small letter dotless i
000132 Latin capital ligature ij
000133 Latin small ligature ij
000134 Latin capital letter j with circumflex
000135 Latin small letter j with circumflex
000136 Latin capital letter k with cedilla
000137 Latin small letter k with cedilla
000138 Latin small letter kra
000139 Latin capital letter l with acute
00013A Latin small letter l with acute
00013B Latin capital letter l with cedilla
00013C Latin small letter l with cedilla
00013D Latin capital letter l with caron
00013E Latin small letter l with caron
00013F Latin capital letter l with middle dot
000140 Latin small letter l with middle dot
000141 Latin capital letter l with stroke
000142 Latin small letter l with stroke
000143 Latin capital letter n with acute
000144 Latin small letter n with acute
000145 Latin capital letter n with cedilla
000146 Latin small letter n with cedilla
000147 Latin capital letter n with caron
000148 Latin small letter n with caron
000149 Latin small letter n preceded by apostrophe
00014A Latin capital letter eng
00014B Latin small letter eng
00014C Latin capital letter o with macron
00014D Latin small letter o with macron
00014E Latin capital letter o with breve
00014F Latin small letter o with breve
000150 Latin capital letter o with double acute
000151 Latin small letter o with double acute
000152 Latin capital ligature oe
000153 Latin small ligature oe
000154 Latin capital letter r with acute
000155 Latin small letter r with acute
000156 Latin capital letter r with cedilla
000157 Latin small letter r with cedilla
000158 Latin capital letter r with caron
000159 Latin small letter r with caron
00015A Latin capital letter s with acute
00015B Latin small letter s with acute
00015C Latin capital letter s with circumflex
00015D Latin small letter s with circumflex
00015E Latin capital letter s with cedilla
00015F Latin small letter s with cedilla
000160 Latin capital letter s with caron
000161 Latin small letter s with caron
000162 Latin capital letter t with cedilla
000163 Latin small letter t with cedilla
000164 Latin capital letter t with caron
000165 Latin small letter t with caron
000166 Latin capital letter t with stroke
000167 Latin small letter t with stroke
000168 Latin capital letter u with tilde
000169 Latin small letter u with tilde
00016A Latin capital letter u with macron
00016B Latin small letter u with macron
00016C Latin capital letter u with breve
00016D Latin small letter u with breve
00016E Latin capital letter u with ring above
00016F Latin small letter u with ring above
000170 Latin capital letter u with double acute
000171 Latin small letter u with double acute
000172 Latin capital letter u with ogonek
000173 Latin small letter u with ogonek
000174 Latin capital letter w with circumflex
000175 Latin small letter w with circumflex
000176 Latin capital letter y with circumflex
000177 Latin small letter y with circumflex
000178 Latin capital letter y with diaeresis
000179 Latin capital letter z with acute
00017A Latin small letter z with acute
00017B Latin capital letter z with dot above
00017C Latin small letter z with dot above
00017D Latin capital letter z with caron
00017E Latin small letter z with caron
00017F Latin small letter long s
000180 Latin small letter b with stroke
000181 Latin capital letter b with hook
000182 Latin capital letter b with topbar
000183 Latin small letter b with topbar
000184 Latin capital letter tone six
000185 Latin small letter tone six
000186 Latin capital letter open o
000187 Latin capital letter c with hook
000188 Latin small letter c with hook
000189 Latin capital letter african d
00018A Latin capital letter d with hook
00018B Latin capital letter d with topbar
00018C Latin small letter d with topbar
00018D Latin small letter turned delta
00018E Latin capital letter reversed e
00018F Latin capital letter schwa
000190 Latin capital letter open e
000191 Latin capital letter f with hook
000192 Latin small letter f with hook
000193 Latin capital letter g with hook
000194 Latin capital letter gamma
000195 Latin small letter hv
000196 Latin capital letter iota
000197 Latin capital letter i with stroke
000198 Latin capital letter k with hook
000199 Latin small letter k with hook
00019A Latin small letter l with bar
00019B Latin small letter lambda with stroke
00019C Latin capital letter turned m
00019D Latin capital letter n with left hook
00019E Latin small letter n with long right leg
00019F Latin capital letter o with middle tilde
0001A0 Latin capital letter o with horn
0001A1 Latin small letter o with horn
0001A2 Latin capital letter oi
0001A3 Latin small letter oi
0001A4 Latin capital letter p with hook
0001A5 Latin small letter p with hook
0001A6 Latin letter yr
0001A7 Latin capital letter tone two
0001A8 Latin small letter tone two
0001A9 Latin capital letter esh
0001AA Latin letter reversed esh loop
0001AB Latin small letter t with palatal hook
0001AC Latin capital letter t with hook
0001AD Latin small letter t with hook
0001AE Latin capital letter t with retroflex hook
0001AF Latin capital letter u with horn
0001B0 Latin small letter u with horn
0001B1 Latin capital letter upsilon
0001B2 Latin capital letter v with hook
0001B3 Latin capital letter y with hook
0001B4 Latin small letter y with hook
0001B5 Latin capital letter z with stroke
0001B6 Latin small letter z with stroke
0001B7 Latin capital letter ezh
0001B8 Latin capital letter ezh reversed
0001B9 Latin small letter ezh reversed
0001BA Latin small letter ezh with tail
0001BB Latin letter two with stroke
0001BC Latin capital letter tone five
0001BD Latin small letter tone five
0001BE Latin letter inverted glottal stop with stroke
0001BF Latin letter wynn
0001C0 Latin letter dental click
0001C1 Latin letter lateral click
0001C2 Latin letter alveolar click
0001C3 Latin letter retroflex click
0001C4 Latin capital letter dz with caron
0001C5 Latin capital letter d with small letter z with caron
0001C6 Latin small letter dz with caron
0001C7 Latin capital letter lj
0001C8 Latin capital letter l with small letter j
0001C9 Latin small letter lj
0001CA Latin capital letter nj
0001CB Latin capital letter n with small letter j
0001CC Latin small letter nj
0001CD Latin capital letter a with caron
";

pub const NAMES_01: &'static str = "0001CE Latin small letter a with caron
0001CF Latin capital letter i with caron
0001D0 Latin small letter i with caron
0001D1 Latin capital letter o with caron
0001D2 Latin small letter o with caron
0001D3 Latin capital letter u with caron
0001D4 Latin small letter u with caron
0001D5 Latin capital letter u with diaeresis and macron
0001D6 Latin small letter u with diaeresis and macron
0001D7 Latin capital letter u with diaeresis and acute
0001D8 Latin small letter u with diaeresis and acute
0001D9 Latin capital letter u with diaeresis and caron
0001DA Latin small letter u with diaeresis and caron
0001DB Latin capital letter u with diaeresis and grave
0001DC Latin small letter u with diaeresis and grave
0001DD Latin small letter turned e
0001DE Latin capital letter a with diaeresis and macron
0001DF Latin small letter a with diaeresis and macron
0001E0 Latin capital letter a with dot above and macron
0001E1 Latin small letter a with dot above and macron
0001E2 Latin capital letter ae with macron
0001E3 Latin small letter ae with macron
0001E4 Latin capital letter g with stroke
0001E5 Latin small letter g with stroke
0001E6 Latin capital letter g with caron
0001E7 Latin small letter g with caron
0001E8 Latin capital letter k with caron
0001E9 Latin small letter k with caron
0001EA Latin capital letter o with ogonek
0001EB Latin small letter o with ogonek
0001EC Latin capital letter o with ogonek and macron
0001ED Latin small letter o with ogonek and macron
0001EE Latin capital letter ezh with caron
0001EF Latin small letter ezh with caron
0001F0 Latin small letter j with caron
0001F1 Latin capital letter dz
0001F2 Latin capital letter d with small letter z
0001F3 Latin small letter dz
0001F4 Latin capital letter g with acute
0001F5 Latin small letter g with acute
0001F6 Latin capital letter hwair
0001F7 Latin capital letter wynn
0001F8 Latin capital letter n with grave
0001F9 Latin small letter n with grave
0001FA Latin capital letter a with ring above and acute
0001FB Latin small letter a with ring above and acute
0001FC Latin capital letter ae with acute
0001FD Latin small letter ae with acute
0001FE Latin capital letter o with stroke and acute
0001FF Latin small letter o with stroke and acute
000200 Latin capital letter a with double grave
000201 Latin small letter a with double grave
000202 Latin capital letter a with inverted breve
000203 Latin small letter a with inverted breve
000204 Latin capital letter e with double grave
000205 Latin small letter e with double grave
000206 Latin capital letter e with inverted breve
000207 Latin small letter e with inverted breve
000208 Latin capital letter i with double grave
000209 Latin small letter i with double grave
00020A Latin capital letter i with inverted breve
00020B Latin small letter i with inverted breve
00020C Latin capital letter o with double grave
00020D Latin small letter o with double grave
00020E Latin capital letter o with inverted breve
00020F Latin small letter o with inverted breve
000210 Latin capital letter r with double grave
000211 Latin small letter r with double grave
000212 Latin capital letter r with inverted breve
000213 Latin small letter r with inverted breve
000214 Latin capital letter u with double grave
000215 Latin small letter u with double grave
000216 Latin capital letter u with inverted breve
000217 Latin small letter u with inverted breve
000218 Latin capital letter s with comma below
000219 Latin small letter s with comma below
00021A Latin capital letter t with comma below
00021B Latin small letter t with comma below
00021C Latin capital letter yogh
00021D Latin small letter yogh
00021E Latin capital letter h with caron
00021F Latin small letter h with caron
000220 Latin capital letter n with long right leg
000221 Latin small letter d with curl
000222 Latin capital letter ou
000223 Latin small letter ou
000224 Latin capital letter z with hook
000225 Latin small letter z with hook
000226 Latin capital letter a with dot above
000227 Latin small letter a with dot above
000228 Latin capital letter e with cedilla
000229 Latin small letter e with cedilla
00022A Latin capital letter o with diaeresis and macron
00022B Latin small letter o with diaeresis and macron
00022C Latin capital letter o with tilde and macron
00022D Latin small letter o with tilde and macron
00022E Latin capital letter o with dot above
00022F Latin small letter o with dot above
000230 Latin capital letter o with dot above and macron
000231 Latin small letter o with dot above and macron
000232 Latin capital letter y with macron
000233 Latin small letter y with macron
000234 Latin small letter l with curl
000235 Latin small letter n with curl
000236 Latin small letter t with curl
000237 Latin small letter dotless j
000238 Latin small letter db digraph
000239 Latin small letter qp digraph
00023A Latin capital letter a with stroke
00023B Latin capital letter c with stroke
00023C Latin small letter c with stroke
00023D Latin capital letter l with bar
00023E Latin capital letter t with diagonal stroke
00023F Latin small letter s with swash tail
000240 Latin small letter z with swash tail
000241 Latin capital letter glottal stop
000242 Latin small letter glottal stop
000243 Latin capital letter b with stroke
000244 Latin capital letter u bar
000245 Latin capital letter turned v
000246 Latin capital letter e with stroke
000247 Latin small letter e with stroke
000248 Latin capital letter j with stroke
000249 Latin small letter j with stroke
00024A Latin capital letter small q with hook tail
00024B Latin small letter q with hook tail
00024C Latin capital letter r with stroke
00024D Latin small letter r with stroke
00024E Latin capital letter y with stroke
00024F Latin small letter y with stroke
000250 Latin small letter turned a
000251 Latin small letter alpha
000252 Latin small letter turned alpha
000253 Latin small letter b with hook
000254 Latin small letter open o
000255 Latin small letter c with curl
000256 Latin small letter d with tail
000257 Latin small letter d with hook
000258 Latin small letter reversed e
000259 Latin small letter schwa
00025A Latin small letter schwa with hook
00025B Latin small letter open e
00025C Latin small letter reversed open e
00025D Latin small letter reversed open e with hook
00025E Latin small letter closed reversed open e
00025F Latin small letter dotless j with stroke
000260 Latin small letter g with hook
000261 Latin small letter script g
000262 Latin letter small capital g
000263 Latin small letter gamma
000264 Latin small letter rams horn
000265 Latin small letter turned h
000266 Latin small letter h with hook
000267 Latin small letter heng with hook
000268 Latin small letter i with stroke
000269 Latin small letter iota
00026A Latin letter small capital i
00026B Latin small letter l with middle tilde
00026C Latin small letter l with belt
00026D Latin small letter l with retroflex hook
00026E Latin small letter lezh
00026F Latin small letter turned m
000270 Latin small letter turned m with long leg
000271 Latin small letter m with hook
000272 Latin small letter n with left hook
000273 Latin small letter n with retroflex hook
000274 Latin letter small capital n
000275 Latin small letter barred o
000276 Latin letter small capital oe
000277 Latin small letter closed omega
000278 Latin small letter phi
000279 Latin small letter turned r
00027A Latin small letter turned r with long leg
00027B Latin small letter turned r with hook
00027C Latin small letter r with long leg
00027D Latin small letter r with tail
00027E Latin small letter r with fishhook
00027F Latin small letter reversed r with fishhook
000280 Latin letter small capital r
000281 Latin letter small capital inverted r
000282 Latin small letter s with hook
000283 Latin small letter esh
000284 Latin small letter dotless j with stroke and hook
000285 Latin small letter squat reversed esh
000286 Latin small letter esh with curl
000287 Latin small letter turned t
000288 Latin small letter t with retroflex hook
000289 Latin small letter u bar
00028A Latin small letter upsilon
00028B Latin small letter v with hook
00028C Latin small letter turned v
00028D Latin small letter turned w
00028E Latin small letter turned y
00028F Latin letter small capital y
000290 Latin small letter z with retroflex hook
000291 Latin small letter z with curl
000292 Latin small letter ezh
000293 Latin small letter ezh with curl
000294 Latin letter glottal stop
000295 Latin letter pharyngeal voiced fricative
000296 Latin letter inverted glottal stop
000297 Latin letter stretched c
000298 Latin letter bilabial click
000299 Latin letter small capital b
00029A Latin small letter closed open e
00029B Latin letter small capital g with hook
00029C Latin letter small capital h
00029D Latin small letter j with crossed-tail
00029E Latin small letter turned k
00029F Latin letter small capital l
0002A0 Latin small letter q with hook
0002A1 Latin letter glottal stop with stroke
0002A2 Latin letter reversed glottal stop with stroke
0002A3 Latin small letter dz digraph
0002A4 Latin small letter dezh digraph
0002A5 Latin small letter dz digraph with curl
0002A6 Latin small letter ts digraph
0002A7 Latin small letter tesh digraph
0002A8 Latin small letter tc digraph with curl
0002A9 Latin small letter feng digraph
0002AA Latin small letter ls digraph
0002AB Latin small letter lz digraph
0002AC Latin letter bilabial percussive
0002AD Latin letter bidental percussive
0002AE Latin small letter turned h with fishhook
0002AF Latin small letter turned h with fishhook and tail
0002B0 Modifier letter small h
0002B1 Modifier letter small h with hook
0002B2 Modifier letter small j
0002B3 Modifier letter small r
0002B4 Modifier letter small turned r
0002B5 Modifier letter small turned r with hook
0002B6 Modifier letter small capital inverted r
0002B7 Modifier letter small w
0002B8 Modifier letter small y
0002B9 Modifier letter prime
0002BA Modifier letter double prime
0002BB Modifier letter turned comma
0002BC Modifier letter apostrophe
0002BD Modifier letter reversed comma
0002BE Modifier letter right half ring
0002BF Modifier letter left half ring
0002C0 Modifier letter glottal stop
0002C1 Modifier letter reversed glottal stop
0002C2 Modifier letter left arrowhead
0002C3 Modifier letter right arrowhead
0002C4 Modifier letter up arrowhead
0002C5 Modifier letter down arrowhead
0002C6 Modifier letter circumflex accent
0002C7 Caron
0002C8 Modifier letter vertical line
0002C9 Modifier letter macron
0002CA Modifier letter acute accent
0002CB Modifier letter grave accent
0002CC Modifier letter low vertical line
0002CD Modifier letter low macron
0002CE Modifier letter low grave accent
0002CF Modifier letter low acute accent
0002D0 Modifier letter triangular colon
0002D1 Modifier letter half triangular colon
0002D2 Modifier letter centred right half ring
0002D3 Modifier letter centred left half ring
0002D4 Modifier letter up tack
0002D5 Modifier letter down tack
0002D6 Modifier letter plus sign
0002D7 Modifier letter minus sign
0002D8 Breve
0002D9 Dot above
0002DA Ring above
0002DB Ogonek
0002DC Small tilde
0002DD Double acute accent
0002DE Modifier letter rhotic hook
0002DF Modifier letter cross accent
0002E0 Modifier letter small gamma
0002E1 Modifier letter small l
0002E2 Modifier letter small s
0002E3 Modifier letter small x
0002E4 Modifier letter small reversed glottal stop
0002E5 Modifier letter extra-high tone bar
0002E6 Modifier letter high tone bar
0002E7 Modifier letter mid tone bar
0002E8 Modifier letter low tone bar
0002E9 Modifier letter extra-low tone bar
0002EA Modifier letter yin departing tone mark
0002EB Modifier letter yang departing tone mark
0002EC Modifier letter voicing
0002ED Modifier letter unaspirated
0002EE Modifier letter double apostrophe
0002EF Modifier letter low down arrowhead
0002F0 Modifier letter low up arrowhead
0002F1 Modifier letter low left arrowhead
0002F2 Modifier letter low right arrowhead
0002F3 Modifier letter low ring
0002F4 Modifier letter middle grave accent
0002F5 Modifier letter middle double grave accent
0002F6 Modifier letter middle double acute accent
0002F7 Modifier letter low tilde
0002F8 Modifier letter raised colon
0002F9 Modifier letter begin high tone
0002FA Modifier letter end high tone
0002FB Modifier letter begin low tone
0002FC Modifier letter end low tone
0002FD Modifier letter shelf
0002FE Modifier letter open shelf
0002FF Modifier letter low left arrow
000300 Combining grave accent
000301 Combining acute accent
000302 Combining circumflex accent
000303 Combining tilde
000304 Combining macron
000305 Combining overline
000306 Combining breve
000307 Combining dot above
000308 Combining diaeresis
000309 Combining hook above
00030A Combining ring above
00030B Combining double acute accent
00030C Combining caron
00030D Combining vertical line above
00030E Combining double vertical line above
00030F Combining double grave accent
000310 Combining candrabindu
000311 Combining inverted breve
000312 Combining turned comma above
000313 Combining comma above
000314 Combining reversed comma above
000315 Combining comma above right
000316 Combining grave accent below
000317 Combining acute accent below
000318 Combining left tack below
000319 Combining right tack below
00031A Combining left angle above
00031B Combining horn
00031C Combining left half ring below
00031D Combining up tack below
00031E Combining down tack below
00031F Combining plus sign below
000320 Combining minus sign below
000321 Combining palatalized hook below
000322 Combining retroflex hook below
000323 Combining dot below
000324 Combining diaeresis below
000325 Combining ring below
000326 Combining comma below
000327 Combining cedilla
000328 Combining ogonek
000329 Combining vertical line below
00032A Combining bridge below
00032B Combining inverted double arch below
00032C Combining caron below
00032D Combining circumflex accent below
00032E Combining breve below
00032F Combining inverted breve below
000330 Combining tilde below
";

pub const NAMES_02: &'static str = "000331 Combining macron below
000332 Combining low line
000333 Combining double low line
000334 Combining tilde overlay
000335 Combining short stroke overlay
000336 Combining long stroke overlay
000337 Combining short solidus overlay
000338 Combining long solidus overlay
000339 Combining right half ring below
00033A Combining inverted bridge below
00033B Combining square below
00033C Combining seagull below
00033D Combining x above
00033E Combining vertical tilde
00033F Combining double overline
000340 Combining grave tone mark
000341 Combining acute tone mark
000342 Combining greek perispomeni
000343 Combining greek koronis
000344 Combining greek dialytika tonos
000345 Combining greek ypogegrammeni
000346 Combining bridge above
000347 Combining equals sign below
000348 Combining double vertical line below
000349 Combining left angle below
00034A Combining not tilde above
00034B Combining homothetic above
00034C Combining almost equal to above
00034D Combining left right arrow below
00034E Combining upwards arrow below
00034F Combining grapheme joiner
000350 Combining right arrowhead above
000351 Combining left half ring above
000352 Combining fermata
000353 Combining x below
000354 Combining left arrowhead below
000355 Combining right arrowhead below
000356 Combining right arrowhead and up arrowhead below
000357 Combining right half ring above
000358 Combining dot above right
000359 Combining asterisk below
00035A Combining double ring below
00035B Combining zigzag above
00035C Combining double breve below
00035D Combining double breve
00035E Combining double macron
00035F Combining double macron below
000360 Combining double tilde
000361 Combining double inverted breve
000362 Combining double rightwards arrow below
000363 Combining latin small letter a
000364 Combining latin small letter e
000365 Combining latin small letter i
000366 Combining latin small letter o
000367 Combining latin small letter u
000368 Combining latin small letter c
000369 Combining latin small letter d
00036A Combining latin small letter h
00036B Combining latin small letter m
00036C Combining latin small letter r
00036D Combining latin small letter t
00036E Combining latin small letter v
00036F Combining latin small letter x
000370 Greek capital letter heta
000371 Greek small letter heta
000372 Greek capital letter archaic sampi
000373 Greek small letter archaic sampi
000374 Greek numeral sign
000375 Greek lower numeral sign
000376 Greek capital letter pamphylian digamma
000377 Greek small letter pamphylian digamma
00037A Greek ypogegrammeni
00037B Greek small reversed lunate sigma symbol
00037C Greek small dotted lunate sigma symbol
00037D Greek small reversed dotted lunate sigma symbol
00037E Greek question mark
00037F Greek capital letter yot
000384 Greek tonos
000385 Greek dialytika tonos
000386 Greek capital letter alpha with tonos
000387 Greek ano teleia
000388 Greek capital letter epsilon with tonos
000389 Greek capital letter eta with tonos
00038A Greek capital letter iota with tonos
00038C Greek capital letter omicron with tonos
00038E Greek capital letter upsilon with tonos
00038F Greek capital letter omega with tonos
000390 Greek small letter iota with dialytika and tonos
000391 Greek capital letter alpha
000392 Greek capital letter beta
000393 Greek capital letter gamma
000394 Greek capital letter delta
000395 Greek capital letter epsilon
000396 Greek capital letter zeta
000397 Greek capital letter eta
000398 Greek capital letter theta
000399 Greek capital letter iota
00039A Greek capital letter kappa
00039B Greek capital letter lamda
00039C Greek capital letter mu
00039D Greek capital letter nu
00039E Greek capital letter xi
00039F Greek capital letter omicron
0003A0 Greek capital letter pi
0003A1 Greek capital letter rho
0003A3 Greek capital letter sigma
0003A4 Greek capital letter tau
0003A5 Greek capital letter upsilon
0003A6 Greek capital letter phi
0003A7 Greek capital letter chi
0003A8 Greek capital letter psi
0003A9 Greek capital letter omega
0003AA Greek capital letter iota with dialytika
0003AB Greek capital letter upsilon with dialytika
0003AC Greek small letter alpha with tonos
0003AD Greek small letter epsilon with tonos
0003AE Greek small letter eta with tonos
0003AF Greek small letter iota with tonos
0003B0 Greek small letter upsilon with dialytika and tonos
0003B1 Greek small letter alpha
0003B2 Greek small letter beta
0003B3 Greek small letter gamma
0003B4 Greek small letter delta
0003B5 Greek small letter epsilon
0003B6 Greek small letter zeta
0003B7 Greek small letter eta
0003B8 Greek small letter theta
0003B9 Greek small letter iota
0003BA Greek small letter kappa
0003BB Greek small letter lamda
0003BC Greek small letter mu
0003BD Greek small letter nu
0003BE Greek small letter xi
0003BF Greek small letter omicron
0003C0 Greek small letter pi
0003C1 Greek small letter rho
0003C2 Greek small letter final sigma
0003C3 Greek small letter sigma
0003C4 Greek small letter tau
0003C5 Greek small letter upsilon
0003C6 Greek small letter phi
0003C7 Greek small letter chi
0003C8 Greek small letter psi
0003C9 Greek small letter omega
0003CA Greek small letter iota with dialytika
0003CB Greek small letter upsilon with dialytika
0003CC Greek small letter omicron with tonos
0003CD Greek small letter upsilon with tonos
0003CE Greek small letter omega with tonos
0003CF Greek capital kai symbol
0003D0 Greek beta symbol
0003D1 Greek theta symbol
0003D2 Greek upsilon with hook symbol
0003D3 Greek upsilon with acute and hook symbol
0003D4 Greek upsilon with diaeresis and hook symbol
0003D5 Greek phi symbol
0003D6 Greek pi symbol
0003D7 Greek kai symbol
0003D8 Greek letter archaic koppa
0003D9 Greek small letter archaic koppa
0003DA Greek letter stigma
0003DB Greek small letter stigma
0003DC Greek letter digamma
0003DD Greek small letter digamma
0003DE Greek letter koppa
0003DF Greek small letter koppa
0003E0 Greek letter sampi
0003E1 Greek small letter sampi
0003E2 Coptic capital letter shei
0003E3 Coptic small letter shei
0003E4 Coptic capital letter fei
0003E5 Coptic small letter fei
0003E6 Coptic capital letter khei
0003E7 Coptic small letter khei
0003E8 Coptic capital letter hori
0003E9 Coptic small letter hori
0003EA Coptic capital letter gangia
0003EB Coptic small letter gangia
0003EC Coptic capital letter shima
0003ED Coptic small letter shima
0003EE Coptic capital letter dei
0003EF Coptic small letter dei
0003F0 Greek kappa symbol
0003F1 Greek rho symbol
0003F2 Greek lunate sigma symbol
0003F3 Greek letter yot
0003F4 Greek capital theta symbol
0003F5 Greek lunate epsilon symbol
0003F6 Greek reversed lunate epsilon symbol
0003F7 Greek capital letter sho
0003F8 Greek small letter sho
0003F9 Greek capital lunate sigma symbol
0003FA Greek capital letter san
0003FB Greek small letter san
0003FC Greek rho with stroke symbol
0003FD Greek capital reversed lunate sigma symbol
0003FE Greek capital dotted lunate sigma symbol
0003FF Greek capital reversed dotted lunate sigma symbol
000400 Cyrillic capital letter ie with grave
000401 Cyrillic capital letter io
000402 Cyrillic capital letter dje
000403 Cyrillic capital letter gje
000404 Cyrillic capital letter ukrainian ie
000405 Cyrillic capital letter dze
000406 Cyrillic capital letter byelorussian-ukrainian i
000407 Cyrillic capital letter yi
000408 Cyrillic capital letter je
000409 Cyrillic capital letter lje
00040A Cyrillic capital letter nje
00040B Cyrillic capital letter tshe
00040C Cyrillic capital letter kje
00040D Cyrillic capital letter i with grave
00040E Cyrillic capital letter short u
00040F Cyrillic capital letter dzhe
000410 Cyrillic capital letter a
000411 Cyrillic capital letter be
000412 Cyrillic capital letter ve
000413 Cyrillic capital letter ghe
000414 Cyrillic capital letter de
000415 Cyrillic capital letter ie
000416 Cyrillic capital letter zhe
000417 Cyrillic capital letter ze
000418 Cyrillic capital letter i
000419 Cyrillic capital letter short i
00041A Cyrillic capital letter ka
00041B Cyrillic capital letter el
00041C Cyrillic capital letter em
00041D Cyrillic capital letter en
00041E Cyrillic capital letter o
00041F Cyrillic capital letter pe
000420 Cyrillic capital letter er
000421 Cyrillic capital letter es
000422 Cyrillic capital letter te
000423 Cyrillic capital letter u
000424 Cyrillic capital letter ef
000425 Cyrillic capital letter ha
000426 Cyrillic capital letter tse
000427 Cyrillic capital letter che
000428 Cyrillic capital letter sha
000429 Cyrillic capital letter shcha
00042A Cyrillic capital letter hard sign
00042B Cyrillic capital letter yeru
00042C Cyrillic capital letter soft sign
00042D Cyrillic capital letter e
00042E Cyrillic capital letter yu
00042F Cyrillic capital letter ya
000430 Cyrillic small letter a
000431 Cyrillic small letter be
000432 Cyrillic small letter ve
000433 Cyrillic small letter ghe
000434 Cyrillic small letter de
000435 Cyrillic small letter ie
000436 Cyrillic small letter zhe
000437 Cyrillic small letter ze
000438 Cyrillic small letter i
000439 Cyrillic small letter short i
00043A Cyrillic small letter ka
00043B Cyrillic small letter el
00043C Cyrillic small letter em
00043D Cyrillic small letter en
00043E Cyrillic small letter o
00043F Cyrillic small letter pe
000440 Cyrillic small letter er
000441 Cyrillic small letter es
000442 Cyrillic small letter te
000443 Cyrillic small letter u
000444 Cyrillic small letter ef
000445 Cyrillic small letter ha
000446 Cyrillic small letter tse
000447 Cyrillic small letter che
000448 Cyrillic small letter sha
000449 Cyrillic small letter shcha
00044A Cyrillic small letter hard sign
00044B Cyrillic small letter yeru
00044C Cyrillic small letter soft sign
00044D Cyrillic small letter e
00044E Cyrillic small letter yu
00044F Cyrillic small letter ya
000450 Cyrillic small letter ie with grave
000451 Cyrillic small letter io
000452 Cyrillic small letter dje
000453 Cyrillic small letter gje
000454 Cyrillic small letter ukrainian ie
000455 Cyrillic small letter dze
000456 Cyrillic small letter byelorussian-ukrainian i
000457 Cyrillic small letter yi
000458 Cyrillic small letter je
000459 Cyrillic small letter lje
00045A Cyrillic small letter nje
00045B Cyrillic small letter tshe
00045C Cyrillic small letter kje
00045D Cyrillic small letter i with grave
00045E Cyrillic small letter short u
00045F Cyrillic small letter dzhe
000460 Cyrillic capital letter omega
000461 Cyrillic small letter omega
000462 Cyrillic capital letter yat
000463 Cyrillic small letter yat
000464 Cyrillic capital letter iotified e
000465 Cyrillic small letter iotified e
000466 Cyrillic capital letter little yus
000467 Cyrillic small letter little yus
000468 Cyrillic capital letter iotified little yus
000469 Cyrillic small letter iotified little yus
00046A Cyrillic capital letter big yus
00046B Cyrillic small letter big yus
00046C Cyrillic capital letter iotified big yus
00046D Cyrillic small letter iotified big yus
00046E Cyrillic capital letter ksi
00046F Cyrillic small letter ksi
000470 Cyrillic capital letter psi
000471 Cyrillic small letter psi
000472 Cyrillic capital letter fita
000473 Cyrillic small letter fita
000474 Cyrillic capital letter izhitsa
000475 Cyrillic small letter izhitsa
000476 Cyrillic capital letter izhitsa with double grave accent
000477 Cyrillic small letter izhitsa with double grave accent
000478 Cyrillic capital letter uk
000479 Cyrillic small letter uk
00047A Cyrillic capital letter round omega
00047B Cyrillic small letter round omega
00047C Cyrillic capital letter omega with titlo
00047D Cyrillic small letter omega with titlo
00047E Cyrillic capital letter ot
00047F Cyrillic small letter ot
000480 Cyrillic capital letter koppa
000481 Cyrillic small letter koppa
000482 Cyrillic thousands sign
000483 Combining cyrillic titlo
000484 Combining cyrillic palatalization
000485 Combining cyrillic dasia pneumata
000486 Combining cyrillic psili pneumata
000487 Combining cyrillic pokrytie
000488 Combining cyrillic hundred thousands sign
000489 Combining cyrillic millions sign
00048A Cyrillic capital letter short i with tail
00048B Cyrillic small letter short i with tail
00048C Cyrillic capital letter semisoft sign
00048D Cyrillic small letter semisoft sign
00048E Cyrillic capital letter er with tick
00048F Cyrillic small letter er with tick
000490 Cyrillic capital letter ghe with upturn
000491 Cyrillic small letter ghe with upturn
000492 Cyrillic capital letter ghe with stroke
000493 Cyrillic small letter ghe with stroke
000494 Cyrillic capital letter ghe with middle hook
000495 Cyrillic small letter ghe with middle hook
000496 Cyrillic capital letter zhe with descender
000497 Cyrillic small letter zhe with descender
000498 Cyrillic capital letter ze with descender
000499 Cyrillic small letter ze with descender
00049A Cyrillic capital letter ka with descender
00049B Cyrillic small letter ka with descender
00049C Cyrillic capital letter ka with vertical stroke
00049D Cyrillic small letter ka with vertical stroke
00049E Cyrillic capital letter ka with stroke
00049F Cyrillic small letter ka with stroke
0004A0 Cyrillic capital letter bashkir ka
0004A1 Cyrillic small letter bashkir ka
0004A2 Cyrillic capital letter en with descender
0004A3 Cyrillic small letter en with descender
0004A4 Cyrillic capital ligature en ghe
0004A5 Cyrillic small ligature en ghe
0004A6 Cyrillic capital letter pe with middle hook
0004A7 Cyrillic small letter pe with middle hook
0004A8 Cyrillic capital letter abkhasian ha
0004A9 Cyrillic small letter abkhasian ha
0004AA Cyrillic capital letter es with descender
0004AB Cyrillic small letter es with descender
0004AC Cyrillic capital letter te with descender
0004AD Cyrillic small letter te with descender
0004AE Cyrillic capital letter straight u
0004AF Cyrillic small letter straight u
0004B0 Cyrillic capital letter straight u with stroke
0004B1 Cyrillic small letter straight u with stroke
0004B2 Cyrillic capital letter ha with descender
0004B3 Cyrillic small letter ha with descender
";

pub const NAMES_03: &'static str = "0004B4 Cyrillic capital ligature te tse
0004B5 Cyrillic small ligature te tse
0004B6 Cyrillic capital letter che with descender
0004B7 Cyrillic small letter che with descender
0004B8 Cyrillic capital letter che with vertical stroke
0004B9 Cyrillic small letter che with vertical stroke
0004BA Cyrillic capital letter shha
0004BB Cyrillic small letter shha
0004BC Cyrillic capital letter abkhasian che
0004BD Cyrillic small letter abkhasian che
0004BE Cyrillic capital letter abkhasian che with descender
0004BF Cyrillic small letter abkhasian che with descender
0004C0 Cyrillic letter palochka
0004C1 Cyrillic capital letter zhe with breve
0004C2 Cyrillic small letter zhe with breve
0004C3 Cyrillic capital letter ka with hook
0004C4 Cyrillic small letter ka with hook
0004C5 Cyrillic capital letter el with tail
0004C6 Cyrillic small letter el with tail
0004C7 Cyrillic capital letter en with hook
0004C8 Cyrillic small letter en with hook
0004C9 Cyrillic capital letter en with tail
0004CA Cyrillic small letter en with tail
0004CB Cyrillic capital letter khakassian che
0004CC Cyrillic small letter khakassian che
0004CD Cyrillic capital letter em with tail
0004CE Cyrillic small letter em with tail
0004CF Cyrillic small letter palochka
0004D0 Cyrillic capital letter a with breve
0004D1 Cyrillic small letter a with breve
0004D2 Cyrillic capital letter a with diaeresis
0004D3 Cyrillic small letter a with diaeresis
0004D4 Cyrillic capital ligature a ie
0004D5 Cyrillic small ligature a ie
0004D6 Cyrillic capital letter ie with breve
0004D7 Cyrillic small letter ie with breve
0004D8 Cyrillic capital letter schwa
0004D9 Cyrillic small letter schwa
0004DA Cyrillic capital letter schwa with diaeresis
0004DB Cyrillic small letter schwa with diaeresis
0004DC Cyrillic capital letter zhe with diaeresis
0004DD Cyrillic small letter zhe with diaeresis
0004DE Cyrillic capital letter ze with diaeresis
0004DF Cyrillic small letter ze with diaeresis
0004E0 Cyrillic capital letter abkhasian dze
0004E1 Cyrillic small letter abkhasian dze
0004E2 Cyrillic capital letter i with macron
0004E3 Cyrillic small letter i with macron
0004E4 Cyrillic capital letter i with diaeresis
0004E5 Cyrillic small letter i with diaeresis
0004E6 Cyrillic capital letter o with diaeresis
0004E7 Cyrillic small letter o with diaeresis
0004E8 Cyrillic capital letter barred o
0004E9 Cyrillic small letter barred o
0004EA Cyrillic capital letter barred o with diaeresis
0004EB Cyrillic small letter barred o with diaeresis
0004EC Cyrillic capital letter e with diaeresis
0004ED Cyrillic small letter e with diaeresis
0004EE Cyrillic capital letter u with macron
0004EF Cyrillic small letter u with macron
0004F0 Cyrillic capital letter u with diaeresis
0004F1 Cyrillic small letter u with diaeresis
0004F2 Cyrillic capital letter u with double acute
0004F3 Cyrillic small letter u with double acute
0004F4 Cyrillic capital letter che with diaeresis
0004F5 Cyrillic small letter che with diaeresis
0004F6 Cyrillic capital letter ghe with descender
0004F7 Cyrillic small letter ghe with descender
0004F8 Cyrillic capital letter yeru with diaeresis
0004F9 Cyrillic small letter yeru with diaeresis
0004FA Cyrillic capital letter ghe with stroke and hook
0004FB Cyrillic small letter ghe with stroke and hook
0004FC Cyrillic capital letter ha with hook
0004FD Cyrillic small letter ha with hook
0004FE Cyrillic capital letter ha with stroke
0004FF Cyrillic small letter ha with stroke
000500 Cyrillic capital letter komi de
000501 Cyrillic small letter komi de
000502 Cyrillic capital letter komi dje
000503 Cyrillic small letter komi dje
000504 Cyrillic capital letter komi zje
000505 Cyrillic small letter komi zje
000506 Cyrillic capital letter komi dzje
000507 Cyrillic small letter komi dzje
000508 Cyrillic capital letter komi lje
000509 Cyrillic small letter komi lje
00050A Cyrillic capital letter komi nje
00050B Cyrillic small letter komi nje
00050C Cyrillic capital letter komi sje
00050D Cyrillic small letter komi sje
00050E Cyrillic capital letter komi tje
00050F Cyrillic small letter komi tje
000510 Cyrillic capital letter reversed ze
000511 Cyrillic small letter reversed ze
000512 Cyrillic capital letter el with hook
000513 Cyrillic small letter el with hook
000514 Cyrillic capital letter lha
000515 Cyrillic small letter lha
000516 Cyrillic capital letter rha
000517 Cyrillic small letter rha
000518 Cyrillic capital letter yae
000519 Cyrillic small letter yae
00051A Cyrillic capital letter qa
00051B Cyrillic small letter qa
00051C Cyrillic capital letter we
00051D Cyrillic small letter we
00051E Cyrillic capital letter aleut ka
00051F Cyrillic small letter aleut ka
000520 Cyrillic capital letter el with middle hook
000521 Cyrillic small letter el with middle hook
000522 Cyrillic capital letter en with middle hook
000523 Cyrillic small letter en with middle hook
000524 Cyrillic capital letter pe with descender
000525 Cyrillic small letter pe with descender
000526 Cyrillic capital letter shha with descender
000527 Cyrillic small letter shha with descender
000528 Cyrillic capital letter en with left hook
000529 Cyrillic small letter en with left hook
00052A Cyrillic capital letter dzzhe
00052B Cyrillic small letter dzzhe
00052C Cyrillic capital letter dche
00052D Cyrillic small letter dche
00052E Cyrillic capital letter el with descender
00052F Cyrillic small letter el with descender
000531 Armenian capital letter ayb
000532 Armenian capital letter ben
000533 Armenian capital letter gim
000534 Armenian capital letter da
000535 Armenian capital letter ech
000536 Armenian capital letter za
000537 Armenian capital letter eh
000538 Armenian capital letter et
000539 Armenian capital letter to
00053A Armenian capital letter zhe
00053B Armenian capital letter ini
00053C Armenian capital letter liwn
00053D Armenian capital letter xeh
00053E Armenian capital letter ca
00053F Armenian capital letter ken
000540 Armenian capital letter ho
000541 Armenian capital letter ja
000542 Armenian capital letter ghad
000543 Armenian capital letter cheh
000544 Armenian capital letter men
000545 Armenian capital letter yi
000546 Armenian capital letter now
000547 Armenian capital letter sha
000548 Armenian capital letter vo
000549 Armenian capital letter cha
00054A Armenian capital letter peh
00054B Armenian capital letter jheh
00054C Armenian capital letter ra
00054D Armenian capital letter seh
00054E Armenian capital letter vew
00054F Armenian capital letter tiwn
000550 Armenian capital letter reh
000551 Armenian capital letter co
000552 Armenian capital letter yiwn
000553 Armenian capital letter piwr
000554 Armenian capital letter keh
000555 Armenian capital letter oh
000556 Armenian capital letter feh
000559 Armenian modifier letter left half ring
00055A Armenian apostrophe
00055B Armenian emphasis mark
00055C Armenian exclamation mark
00055D Armenian comma
00055E Armenian question mark
00055F Armenian abbreviation mark
000560 Armenian small letter turned ayb
000561 Armenian small letter ayb
000562 Armenian small letter ben
000563 Armenian small letter gim
000564 Armenian small letter da
000565 Armenian small letter ech
000566 Armenian small letter za
000567 Armenian small letter eh
000568 Armenian small letter et
000569 Armenian small letter to
00056A Armenian small letter zhe
00056B Armenian small letter ini
00056C Armenian small letter liwn
00056D Armenian small letter xeh
00056E Armenian small letter ca
00056F Armenian small letter ken
000570 Armenian small letter ho
000571 Armenian small letter ja
000572 Armenian small letter ghad
000573 Armenian small letter cheh
000574 Armenian small letter men
000575 Armenian small letter yi
000576 Armenian small letter now
000577 Armenian small letter sha
000578 Armenian small letter vo
000579 Armenian small letter cha
00057A Armenian small letter peh
00057B Armenian small letter jheh
00057C Armenian small letter ra
00057D Armenian small letter seh
00057E Armenian small letter vew
00057F Armenian small letter tiwn
000580 Armenian small letter reh
000581 Armenian small letter co
000582 Armenian small letter yiwn
000583 Armenian small letter piwr
000584 Armenian small letter keh
000585 Armenian small letter oh
000586 Armenian small letter feh
000587 Armenian small ligature ech yiwn
000588 Armenian small letter yi with stroke
000589 Armenian full stop
00058A Armenian hyphen
00058D Right-facing armenian eternity sign
00058E Left-facing armenian eternity sign
00058F Armenian dram sign
000591 Hebrew accent etnahta
000592 Hebrew accent segol
000593 Hebrew accent shalshelet
000594 Hebrew accent zaqef qatan
000595 Hebrew accent zaqef gadol
000596 Hebrew accent tipeha
000597 Hebrew accent revia
000598 Hebrew accent zarqa
000599 Hebrew accent pashta
00059A Hebrew accent yetiv
00059B Hebrew accent tevir
00059C Hebrew accent geresh
00059D Hebrew accent geresh muqdam
00059E Hebrew accent gershayim
00059F Hebrew accent qarney para
0005A0 Hebrew accent telisha gedola
0005A1 Hebrew accent pazer
0005A2 Hebrew accent atnah hafukh
0005A3 Hebrew accent munah
0005A4 Hebrew accent mahapakh
0005A5 Hebrew accent merkha
0005A6 Hebrew accent merkha kefula
0005A7 Hebrew accent darga
0005A8 Hebrew accent qadma
0005A9 Hebrew accent telisha qetana
0005AA Hebrew accent yerah ben yomo
0005AB Hebrew accent ole
0005AC Hebrew accent iluy
0005AD Hebrew accent dehi
0005AE Hebrew accent zinor
0005AF Hebrew mark masora circle
0005B0 Hebrew point sheva
0005B1 Hebrew point hataf segol
0005B2 Hebrew point hataf patah
0005B3 Hebrew point hataf qamats
0005B4 Hebrew point hiriq
0005B5 Hebrew point tsere
0005B6 Hebrew point segol
0005B7 Hebrew point patah
0005B8 Hebrew point qamats
0005B9 Hebrew point holam
0005BA Hebrew point holam haser for vav
0005BB Hebrew point qubuts
0005BC Hebrew point dagesh or mapiq
0005BD Hebrew point meteg
0005BE Hebrew punctuation maqaf
0005BF Hebrew point rafe
0005C0 Hebrew punctuation paseq
0005C1 Hebrew point shin dot
0005C2 Hebrew point sin dot
0005C3 Hebrew punctuation sof pasuq
0005C4 Hebrew mark upper dot
0005C5 Hebrew mark lower dot
0005C6 Hebrew punctuation nun hafukha
0005C7 Hebrew point qamats qatan
0005D0 Hebrew letter alef
0005D1 Hebrew letter bet
0005D2 Hebrew letter gimel
0005D3 Hebrew letter dalet
0005D4 Hebrew letter he
0005D5 Hebrew letter vav
0005D6 Hebrew letter zayin
0005D7 Hebrew letter het
0005D8 Hebrew letter tet
0005D9 Hebrew letter yod
0005DA Hebrew letter final kaf
0005DB Hebrew letter kaf
0005DC Hebrew letter lamed
0005DD Hebrew letter final mem
0005DE Hebrew letter mem
0005DF Hebrew letter final nun
0005E0 Hebrew letter nun
0005E1 Hebrew letter samekh
0005E2 Hebrew letter ayin
0005E3 Hebrew letter final pe
0005E4 Hebrew letter pe
0005E5 Hebrew letter final tsadi
0005E6 Hebrew letter tsadi
0005E7 Hebrew letter qof
0005E8 Hebrew letter resh
0005E9 Hebrew letter shin
0005EA Hebrew letter tav
0005EF Hebrew yod triangle
0005F0 Hebrew ligature yiddish double vav
0005F1 Hebrew ligature yiddish vav yod
0005F2 Hebrew ligature yiddish double yod
0005F3 Hebrew punctuation geresh
0005F4 Hebrew punctuation gershayim
000600 Arabic number sign
000601 Arabic sign sanah
000602 Arabic footnote marker
000603 Arabic sign safha
000604 Arabic sign samvat
000605 Arabic number mark above
000606 Arabic-indic cube root
000607 Arabic-indic fourth root
000608 Arabic ray
000609 Arabic-indic per mille sign
00060A Arabic-indic per ten thousand sign
00060B Afghani sign
00060C Arabic comma
00060D Arabic date separator
00060E Arabic poetic verse sign
00060F Arabic sign misra
000610 Arabic sign sallallahou alayhe wassallam
000611 Arabic sign alayhe assallam
000612 Arabic sign rahmatullah alayhe
000613 Arabic sign radi allahou anhu
000614 Arabic sign takhallus
000615 Arabic small high tah
000616 Arabic small high ligature alef with lam with yeh
000617 Arabic small high zain
000618 Arabic small fatha
000619 Arabic small damma
00061A Arabic small kasra
00061B Arabic semicolon
00061C Arabic letter mark
00061D Arabic end of text mark
00061E Arabic triple dot punctuation mark
00061F Arabic question mark
000620 Arabic letter kashmiri yeh
000621 Arabic letter hamza
000622 Arabic letter alef with madda above
000623 Arabic letter alef with hamza above
000624 Arabic letter waw with hamza above
000625 Arabic letter alef with hamza below
000626 Arabic letter yeh with hamza above
000627 Arabic letter alef
000628 Arabic letter beh
000629 Arabic letter teh marbuta
00062A Arabic letter teh
00062B Arabic letter theh
00062C Arabic letter jeem
00062D Arabic letter hah
00062E Arabic letter khah
00062F Arabic letter dal
000630 Arabic letter thal
000631 Arabic letter reh
000632 Arabic letter zain
000633 Arabic letter seen
000634 Arabic letter sheen
000635 Arabic letter sad
000636 Arabic letter dad
000637 Arabic letter tah
000638 Arabic letter zah
000639 Arabic letter ain
00063A Arabic letter ghain
00063B Arabic letter keheh with two dots above
00063C Arabic letter keheh with three dots below
00063D Arabic letter farsi yeh with inverted v
00063E Arabic letter farsi yeh with two dots above
00063F Arabic letter farsi yeh with three dots above
000640 Arabic tatweel
000641 Arabic letter feh
000642 Arabic letter qaf
000643 Arabic letter kaf
000644 Arabic letter lam
000645 Arabic letter meem
000646 Arabic letter noon
000647 Arabic letter heh
000648 Arabic letter waw
000649 Arabic letter alef maksura
00064A Arabic letter yeh
00064B Arabic fathatan
00064C Arabic dammatan
00064D Arabic kasratan
00064E Arabic fatha
00064F Arabic damma
000650 Arabic kasra
000651 Arabic shadda
000652 Arabic sukun
000653 Arabic maddah above
000654 Arabic hamza above
000655 Arabic hamza below
000656 Arabic subscript alef
000657 Arabic inverted damma
000658 Arabic mark noon ghunna
000659 Arabic zwarakay
00065A Arabic vowel sign small v above
00065B Arabic vowel sign inverted small v above
00065C Arabic vowel sign dot below
00065D Arabic reversed damma
00065E Arabic fatha with two dots
00065F Arabic wavy hamza below
000660 Arabic-indic digit zero
";

pub const NAMES_04: &'static str = "000661 Arabic-indic digit one
000662 Arabic-indic digit two
000663 Arabic-indic digit three
000664 Arabic-indic digit four
000665 Arabic-indic digit five
000666 Arabic-indic digit six
000667 Arabic-indic digit seven
000668 Arabic-indic digit eight
000669 Arabic-indic digit nine
00066A Arabic percent sign
00066B Arabic decimal separator
00066C Arabic thousands separator
00066D Arabic five pointed star
00066E Arabic letter dotless beh
00066F Arabic letter dotless qaf
000670 Arabic letter superscript alef
000671 Arabic letter alef wasla
000672 Arabic letter alef with wavy hamza above
000673 Arabic letter alef with wavy hamza below
000674 Arabic letter high hamza
000675 Arabic letter high hamza alef
000676 Arabic letter high hamza waw
000677 Arabic letter u with hamza above
000678 Arabic letter high hamza yeh
000679 Arabic letter tteh
00067A Arabic letter tteheh
00067B Arabic letter beeh
00067C Arabic letter teh with ring
00067D Arabic letter teh with three dots above downwards
00067E Arabic letter peh
00067F Arabic letter teheh
000680 Arabic letter beheh
000681 Arabic letter hah with hamza above
000682 Arabic letter hah with two dots vertical above
000683 Arabic letter nyeh
000684 Arabic letter dyeh
000685 Arabic letter hah with three dots above
000686 Arabic letter tcheh
000687 Arabic letter tcheheh
000688 Arabic letter ddal
000689 Arabic letter dal with ring
00068A Arabic letter dal with dot below
00068B Arabic letter dal with dot below and small tah
00068C Arabic letter dahal
00068D Arabic letter ddahal
00068E Arabic letter dul
00068F Arabic letter dal with three dots above downwards
000690 Arabic letter dal with four dots above
000691 Arabic letter rreh
000692 Arabic letter reh with small v
000693 Arabic letter reh with ring
000694 Arabic letter reh with dot below
000695 Arabic letter reh with small v below
000696 Arabic letter reh with dot below and dot above
000697 Arabic letter reh with two dots above
000698 Arabic letter jeh
000699 Arabic letter reh with four dots above
00069A Arabic letter seen with dot below and dot above
00069B Arabic letter seen with three dots below
00069C Arabic letter seen with three dots below and three dots above
00069D Arabic letter sad with two dots below
00069E Arabic letter sad with three dots above
00069F Arabic letter tah with three dots above
0006A0 Arabic letter ain with three dots above
0006A1 Arabic letter dotless feh
0006A2 Arabic letter feh with dot moved below
0006A3 Arabic letter feh with dot below
0006A4 Arabic letter veh
0006A5 Arabic letter feh with three dots below
0006A6 Arabic letter peheh
0006A7 Arabic letter qaf with dot above
0006A8 Arabic letter qaf with three dots above
0006A9 Arabic letter keheh
0006AA Arabic letter swash kaf
0006AB Arabic letter kaf with ring
0006AC Arabic letter kaf with dot above
0006AD Arabic letter ng
0006AE Arabic letter kaf with three dots below
0006AF Arabic letter gaf
0006B0 Arabic letter gaf with ring
0006B1 Arabic letter ngoeh
0006B2 Arabic letter gaf with two dots below
0006B3 Arabic letter gueh
0006B4 Arabic letter gaf with three dots above
0006B5 Arabic letter lam with small v
0006B6 Arabic letter lam with dot above
0006B7 Arabic letter lam with three dots above
0006B8 Arabic letter lam with three dots below
0006B9 Arabic letter noon with dot below
0006BA Arabic letter noon ghunna
0006BB Arabic letter rnoon
0006BC Arabic letter noon with ring
0006BD Arabic letter noon with three dots above
0006BE Arabic letter heh doachashmee
0006BF Arabic letter tcheh with dot above
0006C0 Arabic letter heh with yeh above
0006C1 Arabic letter heh goal
0006C2 Arabic letter heh goal with hamza above
0006C3 Arabic letter teh marbuta goal
0006C4 Arabic letter waw with ring
0006C5 Arabic letter kirghiz oe
0006C6 Arabic letter oe
0006C7 Arabic letter u
0006C8 Arabic letter yu
0006C9 Arabic letter kirghiz yu
0006CA Arabic letter waw with two dots above
0006CB Arabic letter ve
0006CC Arabic letter farsi yeh
0006CD Arabic letter yeh with tail
0006CE Arabic letter yeh with small v
0006CF Arabic letter waw with dot above
0006D0 Arabic letter e
0006D1 Arabic letter yeh with three dots below
0006D2 Arabic letter yeh barree
0006D3 Arabic letter yeh barree with hamza above
0006D4 Arabic full stop
0006D5 Arabic letter ae
0006D6 Arabic small high ligature sad with lam with alef maksura
0006D7 Arabic small high ligature qaf with lam with alef maksura
0006D8 Arabic small high meem initial form
0006D9 Arabic small high lam alef
0006DA Arabic small high jeem
0006DB Arabic small high three dots
0006DC Arabic small high seen
0006DD Arabic end of ayah
0006DE Arabic start of rub el hizb
0006DF Arabic small high rounded zero
0006E0 Arabic small high upright rectangular zero
0006E1 Arabic small high dotless head of khah
0006E2 Arabic small high meem isolated form
0006E3 Arabic small low seen
0006E4 Arabic small high madda
0006E5 Arabic small waw
0006E6 Arabic small yeh
0006E7 Arabic small high yeh
0006E8 Arabic small high noon
0006E9 Arabic place of sajdah
0006EA Arabic empty centre low stop
0006EB Arabic empty centre high stop
0006EC Arabic rounded high stop with filled centre
0006ED Arabic small low meem
0006EE Arabic letter dal with inverted v
0006EF Arabic letter reh with inverted v
0006F0 Extended arabic-indic digit zero
0006F1 Extended arabic-indic digit one
0006F2 Extended arabic-indic digit two
0006F3 Extended arabic-indic digit three
0006F4 Extended arabic-indic digit four
0006F5 Extended arabic-indic digit five
0006F6 Extended arabic-indic digit six
0006F7 Extended arabic-indic digit seven
0006F8 Extended arabic-indic digit eight
0006F9 Extended arabic-indic digit nine
0006FA Arabic letter sheen with dot below
0006FB Arabic letter dad with dot below
0006FC Arabic letter ghain with dot below
0006FD Arabic sign sindhi ampersand
0006FE Arabic sign sindhi postposition men
0006FF Arabic letter heh with inverted v
000700 Syriac end of paragraph
000701 Syriac supralinear full stop
000702 Syriac sublinear full stop
000703 Syriac supralinear colon
000704 Syriac sublinear colon
000705 Syriac horizontal colon
000706 Syriac colon skewed left
000707 Syriac colon skewed right
000708 Syriac supralinear colon skewed left
000709 Syriac sublinear colon skewed right
00070A Syriac contraction
00070B Syriac harklean obelus
00070C Syriac harklean metobelus
00070D Syriac harklean asteriscus
00070F Syriac abbreviation mark
000710 Syriac letter alaph
000711 Syriac letter superscript alaph
000712 Syriac letter beth
000713 Syriac letter gamal
000714 Syriac letter gamal garshuni
000715 Syriac letter dalath
000716 Syriac letter dotless dalath rish
000717 Syriac letter he
000718 Syriac letter waw
000719 Syriac letter zain
00071A Syriac letter heth
00071B Syriac letter teth
00071C Syriac letter teth garshuni
00071D Syriac letter yudh
00071E Syriac letter yudh he
00071F Syriac letter kaph
000720 Syriac letter lamadh
000721 Syriac letter mim
000722 Syriac letter nun
000723 Syriac letter semkath
000724 Syriac letter final semkath
000725 Syriac letter e
000726 Syriac letter pe
000727 Syriac letter reversed pe
000728 Syriac letter sadhe
000729 Syriac letter qaph
00072A Syriac letter rish
00072B Syriac letter shin
00072C Syriac letter taw
00072D Syriac letter persian bheth
00072E Syriac letter persian ghamal
00072F Syriac letter persian dhalath
000730 Syriac pthaha above
000731 Syriac pthaha below
000732 Syriac pthaha dotted
000733 Syriac zqapha above
000734 Syriac zqapha below
000735 Syriac zqapha dotted
000736 Syriac rbasa above
000737 Syriac rbasa below
000738 Syriac dotted zlama horizontal
000739 Syriac dotted zlama angular
00073A Syriac hbasa above
00073B Syriac hbasa below
00073C Syriac hbasa-esasa dotted
00073D Syriac esasa above
00073E Syriac esasa below
00073F Syriac rwaha
000740 Syriac feminine dot
000741 Syriac qushshaya
000742 Syriac rukkakha
000743 Syriac two vertical dots above
000744 Syriac two vertical dots below
000745 Syriac three dots above
000746 Syriac three dots below
000747 Syriac oblique line above
000748 Syriac oblique line below
000749 Syriac music
00074A Syriac barrekh
00074D Syriac letter sogdian zhain
00074E Syriac letter sogdian khaph
00074F Syriac letter sogdian fe
000750 Arabic letter beh with three dots horizontally below
000751 Arabic letter beh with dot below and three dots above
000752 Arabic letter beh with three dots pointing upwards below
000753 Arabic letter beh with three dots pointing upwards below and two dots above
000754 Arabic letter beh with two dots below and dot above
000755 Arabic letter beh with inverted small v below
000756 Arabic letter beh with small v
000757 Arabic letter hah with two dots above
000758 Arabic letter hah with three dots pointing upwards below
000759 Arabic letter dal with two dots vertically below and small tah
00075A Arabic letter dal with inverted small v below
00075B Arabic letter reh with stroke
00075C Arabic letter seen with four dots above
00075D Arabic letter ain with two dots above
00075E Arabic letter ain with three dots pointing downwards above
00075F Arabic letter ain with two dots vertically above
000760 Arabic letter feh with two dots below
000761 Arabic letter feh with three dots pointing upwards below
000762 Arabic letter keheh with dot above
000763 Arabic letter keheh with three dots above
000764 Arabic letter keheh with three dots pointing upwards below
000765 Arabic letter meem with dot above
000766 Arabic letter meem with dot below
000767 Arabic letter noon with two dots below
000768 Arabic letter noon with small tah
000769 Arabic letter noon with small v
00076A Arabic letter lam with bar
00076B Arabic letter reh with two dots vertically above
00076C Arabic letter reh with hamza above
00076D Arabic letter seen with two dots vertically above
00076E Arabic letter hah with small arabic letter tah below
00076F Arabic letter hah with small arabic letter tah and two dots
000770 Arabic letter seen with small arabic letter tah and two dots
000771 Arabic letter reh with small arabic letter tah and two dots
000772 Arabic letter hah with small arabic letter tah above
000773 Arabic letter alef with extended arabic-indic digit two above
000774 Arabic letter alef with extended arabic-indic digit three above
000775 Arabic letter farsi yeh with extended arabic-indic digit two above
000776 Arabic letter farsi yeh with extended arabic-indic digit three above
000777 Arabic letter farsi yeh with extended arabic-indic digit four below
000778 Arabic letter waw with extended arabic-indic digit two above
000779 Arabic letter waw with extended arabic-indic digit three above
00077A Arabic letter yeh barree with extended arabic-indic digit two above
00077B Arabic letter yeh barree with extended arabic-indic digit three above
00077C Arabic letter hah with extended arabic-indic digit four below
00077D Arabic letter seen with extended arabic-indic digit four above
00077E Arabic letter seen with inverted v
00077F Arabic letter kaf with two dots above
000780 Thaana letter haa
000781 Thaana letter shaviyani
000782 Thaana letter noonu
000783 Thaana letter raa
000784 Thaana letter baa
000785 Thaana letter lhaviyani
000786 Thaana letter kaafu
000787 Thaana letter alifu
000788 Thaana letter vaavu
000789 Thaana letter meemu
00078A Thaana letter faafu
00078B Thaana letter dhaalu
00078C Thaana letter thaa
00078D Thaana letter laamu
00078E Thaana letter gaafu
00078F Thaana letter gnaviyani
000790 Thaana letter seenu
000791 Thaana letter daviyani
000792 Thaana letter zaviyani
000793 Thaana letter taviyani
000794 Thaana letter yaa
000795 Thaana letter paviyani
000796 Thaana letter javiyani
000797 Thaana letter chaviyani
000798 Thaana letter ttaa
000799 Thaana letter hhaa
00079A Thaana letter khaa
00079B Thaana letter thaalu
00079C Thaana letter zaa
00079D Thaana letter sheenu
00079E Thaana letter saadhu
00079F Thaana letter daadhu
0007A0 Thaana letter to
0007A1 Thaana letter zo
0007A2 Thaana letter ainu
0007A3 Thaana letter ghainu
0007A4 Thaana letter qaafu
0007A5 Thaana letter waavu
0007A6 Thaana abafili
0007A7 Thaana aabaafili
0007A8 Thaana ibifili
0007A9 Thaana eebeefili
0007AA Thaana ubufili
0007AB Thaana ooboofili
0007AC Thaana ebefili
0007AD Thaana eybeyfili
0007AE Thaana obofili
0007AF Thaana oaboafili
0007B0 Thaana sukun
0007B1 Thaana letter naa
0007C0 Nko digit zero
0007C1 Nko digit one
0007C2 Nko digit two
0007C3 Nko digit three
0007C4 Nko digit four
0007C5 Nko digit five
0007C6 Nko digit six
0007C7 Nko digit seven
0007C8 Nko digit eight
0007C9 Nko digit nine
0007CA Nko letter a
0007CB Nko letter ee
0007CC Nko letter i
0007CD Nko letter e
0007CE Nko letter u
0007CF Nko letter oo
0007D0 Nko letter o
0007D1 Nko letter dagbasinna
0007D2 Nko letter n
0007D3 Nko letter ba
0007D4 Nko letter pa
0007D5 Nko letter ta
0007D6 Nko letter ja
0007D7 Nko letter cha
0007D8 Nko letter da
0007D9 Nko letter ra
0007DA Nko letter rra
0007DB Nko letter sa
0007DC Nko letter gba
0007DD Nko letter fa
0007DE Nko letter ka
0007DF Nko letter la
0007E0 Nko letter na woloso
0007E1 Nko letter ma
0007E2 Nko letter nya
0007E3 Nko letter na
0007E4 Nko letter ha
0007E5 Nko letter wa
0007E6 Nko letter ya
0007E7 Nko letter nya woloso
0007E8 Nko letter jona ja
0007E9 Nko letter jona cha
0007EA Nko letter jona ra
0007EB Nko combining short high tone
0007EC Nko combining short low tone
0007ED Nko combining short rising tone
0007EE Nko combining long descending tone
0007EF Nko combining long high tone
0007F0 Nko combining long low tone
0007F1 Nko combining long rising tone
0007F2 Nko combining nasalization mark
0007F3 Nko combining double dot above
0007F4 Nko high tone apostrophe
0007F5 Nko low tone apostrophe
0007F6 Nko symbol oo dennen
0007F7 Nko symbol gbakurunen
0007F8 Nko comma
0007F9 Nko exclamation mark
0007FA Nko lajanyalan
0007FD Nko dantayalan
0007FE Nko dorome sign
0007FF Nko taman sign
000800 Samaritan letter alaf
000801 Samaritan letter bit
000802 Samaritan letter gaman
000803 Samaritan letter dalat
000804 Samaritan letter iy
000805 Samaritan letter baa
000806 Samaritan letter zen
";

pub const NAMES_05: &'static str = "000807 Samaritan letter it
000808 Samaritan letter tit
000809 Samaritan letter yut
00080A Samaritan letter kaaf
00080B Samaritan letter labat
00080C Samaritan letter mim
00080D Samaritan letter nun
00080E Samaritan letter singaat
00080F Samaritan letter in
000810 Samaritan letter fi
000811 Samaritan letter tsaadiy
000812 Samaritan letter quf
000813 Samaritan letter rish
000814 Samaritan letter shan
000815 Samaritan letter taaf
000816 Samaritan mark in
000817 Samaritan mark in-alaf
000818 Samaritan mark occlusion
000819 Samaritan mark dagesh
00081A Samaritan modifier letter epenthetic yut
00081B Samaritan mark epenthetic yut
00081C Samaritan vowel sign long e
00081D Samaritan vowel sign e
00081E Samaritan vowel sign overlong aa
00081F Samaritan vowel sign long aa
000820 Samaritan vowel sign aa
000821 Samaritan vowel sign overlong a
000822 Samaritan vowel sign long a
000823 Samaritan vowel sign a
000824 Samaritan modifier letter short a
000825 Samaritan vowel sign short a
000826 Samaritan vowel sign long u
000827 Samaritan vowel sign u
000828 Samaritan modifier letter i
000829 Samaritan vowel sign long i
00082A Samaritan vowel sign i
00082B Samaritan vowel sign o
00082C Samaritan vowel sign sukun
00082D Samaritan mark nequdaa
000830 Samaritan punctuation nequdaa
000831 Samaritan punctuation afsaaq
000832 Samaritan punctuation anged
000833 Samaritan punctuation bau
000834 Samaritan punctuation atmaau
000835 Samaritan punctuation shiyyaalaa
000836 Samaritan abbreviation mark
000837 Samaritan punctuation melodic qitsa
000838 Samaritan punctuation ziqaa
000839 Samaritan punctuation qitsa
00083A Samaritan punctuation zaef
00083B Samaritan punctuation turu
00083C Samaritan punctuation arkaanu
00083D Samaritan punctuation sof mashfaat
00083E Samaritan punctuation annaau
000840 Mandaic letter halqa
000841 Mandaic letter ab
000842 Mandaic letter ag
000843 Mandaic letter ad
000844 Mandaic letter ah
000845 Mandaic letter ushenna
000846 Mandaic letter az
000847 Mandaic letter it
000848 Mandaic letter att
000849 Mandaic letter aksa
00084A Mandaic letter ak
00084B Mandaic letter al
00084C Mandaic letter am
00084D Mandaic letter an
00084E Mandaic letter as
00084F Mandaic letter in
000850 Mandaic letter ap
000851 Mandaic letter asz
000852 Mandaic letter aq
000853 Mandaic letter ar
000854 Mandaic letter ash
000855 Mandaic letter at
000856 Mandaic letter dushenna
000857 Mandaic letter kad
000858 Mandaic letter ain
000859 Mandaic affrication mark
00085A Mandaic vocalization mark
00085B Mandaic gemination mark
00085E Mandaic punctuation
000860 Syriac letter malayalam nga
000861 Syriac letter malayalam ja
000862 Syriac letter malayalam nya
000863 Syriac letter malayalam tta
000864 Syriac letter malayalam nna
000865 Syriac letter malayalam nnna
000866 Syriac letter malayalam bha
000867 Syriac letter malayalam ra
000868 Syriac letter malayalam lla
000869 Syriac letter malayalam llla
00086A Syriac letter malayalam ssa
000870 Arabic letter alef with attached fatha
000871 Arabic letter alef with attached top right fatha
000872 Arabic letter alef with right middle stroke
000873 Arabic letter alef with left middle stroke
000874 Arabic letter alef with attached kasra
000875 Arabic letter alef with attached bottom right kasra
000876 Arabic letter alef with attached round dot above
000877 Arabic letter alef with attached right round dot
000878 Arabic letter alef with attached left round dot
000879 Arabic letter alef with attached round dot below
00087A Arabic letter alef with dot above
00087B Arabic letter alef with attached top right fatha and dot above
00087C Arabic letter alef with right middle stroke and dot above
00087D Arabic letter alef with attached bottom right kasra and dot above
00087E Arabic letter alef with attached top right fatha and left ring
00087F Arabic letter alef with right middle stroke and left ring
000880 Arabic letter alef with attached bottom right kasra and left ring
000881 Arabic letter alef with attached right hamza
000882 Arabic letter alef with attached left hamza
000883 Arabic tatweel with overstruck hamza
000884 Arabic tatweel with overstruck waw
000885 Arabic tatweel with two dots below
000886 Arabic letter thin yeh
000887 Arabic baseline round dot
000888 Arabic raised round dot
000889 Arabic letter noon with inverted small v
00088A Arabic letter hah with inverted small v below
00088B Arabic letter tah with dot below
00088C Arabic letter tah with three dots below
00088D Arabic letter keheh with two dots vertically below
00088E Arabic vertical tail
000890 Arabic pound mark above
000891 Arabic piastre mark above
000898 Arabic small high word al-juz
000899 Arabic small low word ishmaam
00089A Arabic small low word imaala
00089B Arabic small low word tasheel
00089C Arabic madda waajib
00089D Arabic superscript alef mokhassas
00089E Arabic doubled madda
00089F Arabic half madda over madda
0008A0 Arabic letter beh with small v below
0008A1 Arabic letter beh with hamza above
0008A2 Arabic letter jeem with two dots above
0008A3 Arabic letter tah with two dots above
0008A4 Arabic letter feh with dot below and three dots above
0008A5 Arabic letter qaf with dot below
0008A6 Arabic letter lam with double bar
0008A7 Arabic letter meem with three dots above
0008A8 Arabic letter yeh with two dots below and hamza above
0008A9 Arabic letter yeh with two dots below and dot above
0008AA Arabic letter reh with loop
0008AB Arabic letter waw with dot within
0008AC Arabic letter rohingya yeh
0008AD Arabic letter low alef
0008AE Arabic letter dal with three dots below
0008AF Arabic letter sad with three dots below
0008B0 Arabic letter gaf with inverted stroke
0008B1 Arabic letter straight waw
0008B2 Arabic letter zain with inverted v above
0008B3 Arabic letter ain with three dots below
0008B4 Arabic letter kaf with dot below
0008B5 Arabic letter qaf with dot below and no dots above
0008B6 Arabic letter beh with small meem above
0008B7 Arabic letter peh with small meem above
0008B8 Arabic letter teh with small teh above
0008B9 Arabic letter reh with small noon above
0008BA Arabic letter yeh with two dots below and small noon above
0008BB Arabic letter african feh
0008BC Arabic letter african qaf
0008BD Arabic letter african noon
0008BE Arabic letter peh with small v
0008BF Arabic letter teh with small v
0008C0 Arabic letter tteh with small v
0008C1 Arabic letter tcheh with small v
0008C2 Arabic letter keheh with small v
0008C3 Arabic letter ghain with three dots above
0008C4 Arabic letter african qaf with three dots above
0008C5 Arabic letter jeem with three dots above
0008C6 Arabic letter jeem with three dots below
0008C7 Arabic letter lam with small arabic letter tah above
0008C8 Arabic letter graf
0008C9 Arabic small farsi yeh
0008CA Arabic small high farsi yeh
0008CB Arabic small high yeh barree with two dots below
0008CC Arabic small high word sah
0008CD Arabic small high zah
0008CE Arabic large round dot above
0008CF Arabic large round dot below
0008D0 Arabic sukun below
0008D1 Arabic large circle below
0008D2 Arabic large round dot inside circle below
0008D3 Arabic small low waw
0008D4 Arabic small high word ar-rub
0008D5 Arabic small high sad
0008D6 Arabic small high ain
0008D7 Arabic small high qaf
0008D8 Arabic small high noon with kasra
0008D9 Arabic small low noon with kasra
0008DA Arabic small high word ath-thalatha
0008DB Arabic small high word as-sajda
0008DC Arabic small high word an-nisf
0008DD Arabic small high word sakta
0008DE Arabic small high word qif
0008DF Arabic small high word waqfa
0008E0 Arabic small high footnote marker
0008E1 Arabic small high sign safha
0008E2 Arabic disputed end of ayah
0008E3 Arabic turned damma below
0008E4 Arabic curly fatha
0008E5 Arabic curly damma
0008E6 Arabic curly kasra
0008E7 Arabic curly fathatan
0008E8 Arabic curly dammatan
0008E9 Arabic curly kasratan
0008EA Arabic tone one dot above
0008EB Arabic tone two dots above
0008EC Arabic tone loop above
0008ED Arabic tone one dot below
0008EE Arabic tone two dots below
0008EF Arabic tone loop below
0008F0 Arabic open fathatan
0008F1 Arabic open dammatan
0008F2 Arabic open kasratan
0008F3 Arabic small high waw
0008F4 Arabic fatha with ring
0008F5 Arabic fatha with dot above
0008F6 Arabic kasra with dot below
0008F7 Arabic left arrowhead above
0008F8 Arabic right arrowhead above
0008F9 Arabic left arrowhead below
0008FA Arabic right arrowhead below
0008FB Arabic double right arrowhead above
0008FC Arabic double right arrowhead above with dot
0008FD Arabic right arrowhead above with dot
0008FE Arabic damma with dot
0008FF Arabic mark sideways noon ghunna
000900 Devanagari sign inverted candrabindu
000901 Devanagari sign candrabindu
000902 Devanagari sign anusvara
000903 Devanagari sign visarga
000904 Devanagari letter short a
000905 Devanagari letter a
000906 Devanagari letter aa
000907 Devanagari letter i
000908 Devanagari letter ii
000909 Devanagari letter u
00090A Devanagari letter uu
00090B Devanagari letter vocalic r
00090C Devanagari letter vocalic l
00090D Devanagari letter candra e
00090E Devanagari letter short e
00090F Devanagari letter e
000910 Devanagari letter ai
000911 Devanagari letter candra o
000912 Devanagari letter short o
000913 Devanagari letter o
000914 Devanagari letter au
000915 Devanagari letter ka
000916 Devanagari letter kha
000917 Devanagari letter ga
000918 Devanagari letter gha
000919 Devanagari letter nga
00091A Devanagari letter ca
00091B Devanagari letter cha
00091C Devanagari letter ja
00091D Devanagari letter jha
00091E Devanagari letter nya
00091F Devanagari letter tta
000920 Devanagari letter ttha
000921 Devanagari letter dda
000922 Devanagari letter ddha
000923 Devanagari letter nna
000924 Devanagari letter ta
000925 Devanagari letter tha
000926 Devanagari letter da
000927 Devanagari letter dha
000928 Devanagari letter na
000929 Devanagari letter nnna
00092A Devanagari letter pa
00092B Devanagari letter pha
00092C Devanagari letter ba
00092D Devanagari letter bha
00092E Devanagari letter ma
00092F Devanagari letter ya
000930 Devanagari letter ra
000931 Devanagari letter rra
000932 Devanagari letter la
000933 Devanagari letter lla
000934 Devanagari letter llla
000935 Devanagari letter va
000936 Devanagari letter sha
000937 Devanagari letter ssa
000938 Devanagari letter sa
000939 Devanagari letter ha
00093A Devanagari vowel sign oe
00093B Devanagari vowel sign ooe
00093C Devanagari sign nukta
00093D Devanagari sign avagraha
00093E Devanagari vowel sign aa
00093F Devanagari vowel sign i
000940 Devanagari vowel sign ii
000941 Devanagari vowel sign u
000942 Devanagari vowel sign uu
000943 Devanagari vowel sign vocalic r
000944 Devanagari vowel sign vocalic rr
000945 Devanagari vowel sign candra e
000946 Devanagari vowel sign short e
000947 Devanagari vowel sign e
000948 Devanagari vowel sign ai
000949 Devanagari vowel sign candra o
00094A Devanagari vowel sign short o
00094B Devanagari vowel sign o
00094C Devanagari vowel sign au
00094D Devanagari sign virama
00094E Devanagari vowel sign prishthamatra e
00094F Devanagari vowel sign aw
000950 Devanagari om
000951 Devanagari stress sign udatta
000952 Devanagari stress sign anudatta
000953 Devanagari grave accent
000954 Devanagari acute accent
000955 Devanagari vowel sign candra long e
000956 Devanagari vowel sign ue
000957 Devanagari vowel sign uue
000958 Devanagari letter qa
000959 Devanagari letter khha
00095A Devanagari letter ghha
00095B Devanagari letter za
00095C Devanagari letter dddha
00095D Devanagari letter rha
00095E Devanagari letter fa
00095F Devanagari letter yya
000960 Devanagari letter vocalic rr
000961 Devanagari letter vocalic ll
000962 Devanagari vowel sign vocalic l
000963 Devanagari vowel sign vocalic ll
000964 Devanagari danda
000965 Devanagari double danda
000966 Devanagari digit zero
000967 Devanagari digit one
000968 Devanagari digit two
000969 Devanagari digit three
00096A Devanagari digit four
00096B Devanagari digit five
00096C Devanagari digit six
00096D Devanagari digit seven
00096E Devanagari digit eight
00096F Devanagari digit nine
000970 Devanagari abbreviation sign
000971 Devanagari sign high spacing dot
000972 Devanagari letter candra a
000973 Devanagari letter oe
000974 Devanagari letter ooe
000975 Devanagari letter aw
000976 Devanagari letter ue
000977 Devanagari letter uue
000978 Devanagari letter marwari dda
000979 Devanagari letter zha
00097A Devanagari letter heavy ya
00097B Devanagari letter gga
00097C Devanagari letter jja
00097D Devanagari letter glottal stop
00097E Devanagari letter ddda
00097F Devanagari letter bba
000980 Bengali anji
000981 Bengali sign candrabindu
000982 Bengali sign anusvara
000983 Bengali sign visarga
000985 Bengali letter a
000986 Bengali letter aa
000987 Bengali letter i
000988 Bengali letter ii
000989 Bengali letter u
00098A Bengali letter uu
00098B Bengali letter vocalic r
00098C Bengali letter vocalic l
00098F Bengali letter e
000990 Bengali letter ai
000993 Bengali letter o
000994 Bengali letter au
000995 Bengali letter ka
000996 Bengali letter kha
000997 Bengali letter ga
000998 Bengali letter gha
000999 Bengali letter nga
00099A Bengali letter ca
00099B Bengali letter cha
00099C Bengali letter ja
00099D Bengali letter jha
00099E Bengali letter nya
00099F Bengali letter tta
0009A0 Bengali letter ttha
0009A1 Bengali letter dda
0009A2 Bengali letter ddha
0009A3 Bengali letter nna
0009A4 Bengali letter ta
0009A5 Bengali letter tha
0009A6 Bengali letter da
0009A7 Bengali letter dha
0009A8 Bengali letter na
0009AA Bengali letter pa
0009AB Bengali letter pha
0009AC Bengali letter ba
0009AD Bengali letter bha
0009AE Bengali letter ma
0009AF Bengali letter ya
0009B0 Bengali letter ra
0009B2 Bengali letter la
0009B6 Bengali letter sha
0009B7 Bengali letter ssa
0009B8 Bengali letter sa
0009B9 Bengali letter ha
0009BC Bengali sign nukta
0009BD Bengali sign avagraha
0009BE Bengali vowel sign aa
0009BF Bengali vowel sign i
0009C0 Bengali vowel sign ii
0009C1 Bengali vowel sign u
0009C2 Bengali vowel sign uu
";

pub const NAMES_06: &'static str = "0009C3 Bengali vowel sign vocalic r
0009C4 Bengali vowel sign vocalic rr
0009C7 Bengali vowel sign e
0009C8 Bengali vowel sign ai
0009CB Bengali vowel sign o
0009CC Bengali vowel sign au
0009CD Bengali sign virama
0009CE Bengali letter khanda ta
0009D7 Bengali au length mark
0009DC Bengali letter rra
0009DD Bengali letter rha
0009DF Bengali letter yya
0009E0 Bengali letter vocalic rr
0009E1 Bengali letter vocalic ll
0009E2 Bengali vowel sign vocalic l
0009E3 Bengali vowel sign vocalic ll
0009E6 Bengali digit zero
0009E7 Bengali digit one
0009E8 Bengali digit two
0009E9 Bengali digit three
0009EA Bengali digit four
0009EB Bengali digit five
0009EC Bengali digit six
0009ED Bengali digit seven
0009EE Bengali digit eight
0009EF Bengali digit nine
0009F0 Bengali letter ra with middle diagonal
0009F1 Bengali letter ra with lower diagonal
0009F2 Bengali rupee mark
0009F3 Bengali rupee sign
0009F4 Bengali currency numerator one
0009F5 Bengali currency numerator two
0009F6 Bengali currency numerator three
0009F7 Bengali currency numerator four
0009F8 Bengali currency numerator one less than the denominator
0009F9 Bengali currency denominator sixteen
0009FA Bengali isshar
0009FB Bengali ganda mark
0009FC Bengali letter vedic anusvara
0009FD Bengali abbreviation sign
0009FE Bengali sandhi mark
000A01 Gurmukhi sign adak bindi
000A02 Gurmukhi sign bindi
000A03 Gurmukhi sign visarga
000A05 Gurmukhi letter a
000A06 Gurmukhi letter aa
000A07 Gurmukhi letter i
000A08 Gurmukhi letter ii
000A09 Gurmukhi letter u
000A0A Gurmukhi letter uu
000A0F Gurmukhi letter ee
000A10 Gurmukhi letter ai
000A13 Gurmukhi letter oo
000A14 Gurmukhi letter au
000A15 Gurmukhi letter ka
000A16 Gurmukhi letter kha
000A17 Gurmukhi letter ga
000A18 Gurmukhi letter gha
000A19 Gurmukhi letter nga
000A1A Gurmukhi letter ca
000A1B Gurmukhi letter cha
000A1C Gurmukhi letter ja
000A1D Gurmukhi letter jha
000A1E Gurmukhi letter nya
000A1F Gurmukhi letter tta
000A20 Gurmukhi letter ttha
000A21 Gurmukhi letter dda
000A22 Gurmukhi letter ddha
000A23 Gurmukhi letter nna
000A24 Gurmukhi letter ta
000A25 Gurmukhi letter tha
000A26 Gurmukhi letter da
000A27 Gurmukhi letter dha
000A28 Gurmukhi letter na
000A2A Gurmukhi letter pa
000A2B Gurmukhi letter pha
000A2C Gurmukhi letter ba
000A2D Gurmukhi letter bha
000A2E Gurmukhi letter ma
000A2F Gurmukhi letter ya
000A30 Gurmukhi letter ra
000A32 Gurmukhi letter la
000A33 Gurmukhi letter lla
000A35 Gurmukhi letter va
000A36 Gurmukhi letter sha
000A38 Gurmukhi letter sa
000A39 Gurmukhi letter ha
000A3C Gurmukhi sign nukta
000A3E Gurmukhi vowel sign aa
000A3F Gurmukhi vowel sign i
000A40 Gurmukhi vowel sign ii
000A41 Gurmukhi vowel sign u
000A42 Gurmukhi vowel sign uu
000A47 Gurmukhi vowel sign ee
000A48 Gurmukhi vowel sign ai
000A4B Gurmukhi vowel sign oo
000A4C Gurmukhi vowel sign au
000A4D Gurmukhi sign virama
000A51 Gurmukhi sign udaat
000A59 Gurmukhi letter khha
000A5A Gurmukhi letter ghha
000A5B Gurmukhi letter za
000A5C Gurmukhi letter rra
000A5E Gurmukhi letter fa
000A66 Gurmukhi digit zero
000A67 Gurmukhi digit one
000A68 Gurmukhi digit two
000A69 Gurmukhi digit three
000A6A Gurmukhi digit four
000A6B Gurmukhi digit five
000A6C Gurmukhi digit six
000A6D Gurmukhi digit seven
000A6E Gurmukhi digit eight
000A6F Gurmukhi digit nine
000A70 Gurmukhi tippi
000A71 Gurmukhi addak
000A72 Gurmukhi iri
000A73 Gurmukhi ura
000A74 Gurmukhi ek onkar
000A75 Gurmukhi sign yakash
000A76 Gurmukhi abbreviation sign
000A81 Gujarati sign candrabindu
000A82 Gujarati sign anusvara
000A83 Gujarati sign visarga
000A85 Gujarati letter a
000A86 Gujarati letter aa
000A87 Gujarati letter i
000A88 Gujarati letter ii
000A89 Gujarati letter u
000A8A Gujarati letter uu
000A8B Gujarati letter vocalic r
000A8C Gujarati letter vocalic l
000A8D Gujarati vowel candra e
000A8F Gujarati letter e
000A90 Gujarati letter ai
000A91 Gujarati vowel candra o
000A93 Gujarati letter o
000A94 Gujarati letter au
000A95 Gujarati letter ka
000A96 Gujarati letter kha
000A97 Gujarati letter ga
000A98 Gujarati letter gha
000A99 Gujarati letter nga
000A9A Gujarati letter ca
000A9B Gujarati letter cha
000A9C Gujarati letter ja
000A9D Gujarati letter jha
000A9E Gujarati letter nya
000A9F Gujarati letter tta
000AA0 Gujarati letter ttha
000AA1 Gujarati letter dda
000AA2 Gujarati letter ddha
000AA3 Gujarati letter nna
000AA4 Gujarati letter ta
000AA5 Gujarati letter tha
000AA6 Gujarati letter da
000AA7 Gujarati letter dha
000AA8 Gujarati letter na
000AAA Gujarati letter pa
000AAB Gujarati letter pha
000AAC Gujarati letter ba
000AAD Gujarati letter bha
000AAE Gujarati letter ma
000AAF Gujarati letter ya
000AB0 Gujarati letter ra
000AB2 Gujarati letter la
000AB3 Gujarati letter lla
000AB5 Gujarati letter va
000AB6 Gujarati letter sha
000AB7 Gujarati letter ssa
000AB8 Gujarati letter sa
000AB9 Gujarati letter ha
000ABC Gujarati sign nukta
000ABD Gujarati sign avagraha
000ABE Gujarati vowel sign aa
000ABF Gujarati vowel sign i
000AC0 Gujarati vowel sign ii
000AC1 Gujarati vowel sign u
000AC2 Gujarati vowel sign uu
000AC3 Gujarati vowel sign vocalic r
000AC4 Gujarati vowel sign vocalic rr
000AC5 Gujarati vowel sign candra e
000AC7 Gujarati vowel sign e
000AC8 Gujarati vowel sign ai
000AC9 Gujarati vowel sign candra o
000ACB Gujarati vowel sign o
000ACC Gujarati vowel sign au
000ACD Gujarati sign virama
000AD0 Gujarati om
000AE0 Gujarati letter vocalic rr
000AE1 Gujarati letter vocalic ll
000AE2 Gujarati vowel sign vocalic l
000AE3 Gujarati vowel sign vocalic ll
000AE6 Gujarati digit zero
000AE7 Gujarati digit one
000AE8 Gujarati digit two
000AE9 Gujarati digit three
000AEA Gujarati digit four
000AEB Gujarati digit five
000AEC Gujarati digit six
000AED Gujarati digit seven
000AEE Gujarati digit eight
000AEF Gujarati digit nine
000AF0 Gujarati abbreviation sign
000AF1 Gujarati rupee sign
000AF9 Gujarati letter zha
000AFA Gujarati sign sukun
000AFB Gujarati sign shadda
000AFC Gujarati sign maddah
000AFD Gujarati sign three-dot nukta above
000AFE Gujarati sign circle nukta above
000AFF Gujarati sign two-circle nukta above
000B01 Oriya sign candrabindu
000B02 Oriya sign anusvara
000B03 Oriya sign visarga
000B05 Oriya letter a
000B06 Oriya letter aa
000B07 Oriya letter i
000B08 Oriya letter ii
000B09 Oriya letter u
000B0A Oriya letter uu
000B0B Oriya letter vocalic r
000B0C Oriya letter vocalic l
000B0F Oriya letter e
000B10 Oriya letter ai
000B13 Oriya letter o
000B14 Oriya letter au
000B15 Oriya letter ka
000B16 Oriya letter kha
000B17 Oriya letter ga
000B18 Oriya letter gha
000B19 Oriya letter nga
000B1A Oriya letter ca
000B1B Oriya letter cha
000B1C Oriya letter ja
000B1D Oriya letter jha
000B1E Oriya letter nya
000B1F Oriya letter tta
000B20 Oriya letter ttha
000B21 Oriya letter dda
000B22 Oriya letter ddha
000B23 Oriya letter nna
000B24 Oriya letter ta
000B25 Oriya letter tha
000B26 Oriya letter da
000B27 Oriya letter dha
000B28 Oriya letter na
000B2A Oriya letter pa
000B2B Oriya letter pha
000B2C Oriya letter ba
000B2D Oriya letter bha
000B2E Oriya letter ma
000B2F Oriya letter ya
000B30 Oriya letter ra
000B32 Oriya letter la
000B33 Oriya letter lla
000B35 Oriya letter va
000B36 Oriya letter sha
000B37 Oriya letter ssa
000B38 Oriya letter sa
000B39 Oriya letter ha
000B3C Oriya sign nukta
000B3D Oriya sign avagraha
000B3E Oriya vowel sign aa
000B3F Oriya vowel sign i
000B40 Oriya vowel sign ii
000B41 Oriya vowel sign u
000B42 Oriya vowel sign uu
000B43 Oriya vowel sign vocalic r
000B44 Oriya vowel sign vocalic rr
000B47 Oriya vowel sign e
000B48 Oriya vowel sign ai
000B4B Oriya vowel sign o
000B4C Oriya vowel sign au
000B4D Oriya sign virama
000B55 Oriya sign overline
000B56 Oriya ai length mark
000B57 Oriya au length mark
000B5C Oriya letter rra
000B5D Oriya letter rha
000B5F Oriya letter yya
000B60 Oriya letter vocalic rr
000B61 Oriya letter vocalic ll
000B62 Oriya vowel sign vocalic l
000B63 Oriya vowel sign vocalic ll
000B66 Oriya digit zero
000B67 Oriya digit one
000B68 Oriya digit two
000B69 Oriya digit three
000B6A Oriya digit four
000B6B Oriya digit five
000B6C Oriya digit six
000B6D Oriya digit seven
000B6E Oriya digit eight
000B6F Oriya digit nine
000B70 Oriya isshar
000B71 Oriya letter wa
000B72 Oriya fraction one quarter
000B73 Oriya fraction one half
000B74 Oriya fraction three quarters
000B75 Oriya fraction one sixteenth
000B76 Oriya fraction one eighth
000B77 Oriya fraction three sixteenths
000B82 Tamil sign anusvara
000B83 Tamil sign visarga
000B85 Tamil letter a
000B86 Tamil letter aa
000B87 Tamil letter i
000B88 Tamil letter ii
000B89 Tamil letter u
000B8A Tamil letter uu
000B8E Tamil letter e
000B8F Tamil letter ee
000B90 Tamil letter ai
000B92 Tamil letter o
000B93 Tamil letter oo
000B94 Tamil letter au
000B95 Tamil letter ka
000B99 Tamil letter nga
000B9A Tamil letter ca
000B9C Tamil letter ja
000B9E Tamil letter nya
000B9F Tamil letter tta
000BA3 Tamil letter nna
000BA4 Tamil letter ta
000BA8 Tamil letter na
000BA9 Tamil letter nnna
000BAA Tamil letter pa
000BAE Tamil letter ma
000BAF Tamil letter ya
000BB0 Tamil letter ra
000BB1 Tamil letter rra
000BB2 Tamil letter la
000BB3 Tamil letter lla
000BB4 Tamil letter llla
000BB5 Tamil letter va
000BB6 Tamil letter sha
000BB7 Tamil letter ssa
000BB8 Tamil letter sa
000BB9 Tamil letter ha
000BBE Tamil vowel sign aa
000BBF Tamil vowel sign i
000BC0 Tamil vowel sign ii
000BC1 Tamil vowel sign u
000BC2 Tamil vowel sign uu
000BC6 Tamil vowel sign e
000BC7 Tamil vowel sign ee
000BC8 Tamil vowel sign ai
000BCA Tamil vowel sign o
000BCB Tamil vowel sign oo
000BCC Tamil vowel sign au
000BCD Tamil sign virama
000BD0 Tamil om
000BD7 Tamil au length mark
000BE6 Tamil digit zero
000BE7 Tamil digit one
000BE8 Tamil digit two
000BE9 Tamil digit three
000BEA Tamil digit four
000BEB Tamil digit five
000BEC Tamil digit six
000BED Tamil digit seven
000BEE Tamil digit eight
000BEF Tamil digit nine
000BF0 Tamil number ten
000BF1 Tamil number one hundred
000BF2 Tamil number one thousand
000BF3 Tamil day sign
000BF4 Tamil month sign
000BF5 Tamil year sign
000BF6 Tamil debit sign
000BF7 Tamil credit sign
000BF8 Tamil as above sign
000BF9 Tamil rupee sign
000BFA Tamil number sign
000C00 Telugu sign combining candrabindu above
000C01 Telugu sign candrabindu
000C02 Telugu sign anusvara
000C03 Telugu sign visarga
000C04 Telugu sign combining anusvara above
000C05 Telugu letter a
000C06 Telugu letter aa
000C07 Telugu letter i
000C08 Telugu letter ii
000C09 Telugu letter u
000C0A Telugu letter uu
000C0B Telugu letter vocalic r
000C0C Telugu letter vocalic l
000C0E Telugu letter e
000C0F Telugu letter ee
000C10 Telugu letter ai
000C12 Telugu letter o
000C13 Telugu letter oo
000C14 Telugu letter au
000C15 Telugu letter ka
000C16 Telugu letter kha
000C17 Telugu letter ga
000C18 Telugu letter gha
000C19 Telugu letter nga
000C1A Telugu letter ca
000C1B Telugu letter cha
000C1C Telugu letter ja
000C1D Telugu letter jha
000C1E Telugu letter nya
000C1F Telugu letter tta
000C20 Telugu letter ttha
000C21 Telugu letter dda
000C22 Telugu letter ddha
000C23 Telugu letter nna
000C24 Telugu letter ta
000C25 Telugu letter tha
000C26 Telugu letter da
000C27 Telugu letter dha
000C28 Telugu letter na
000C2A Telugu letter pa
000C2B Telugu letter pha
000C2C Telugu letter ba
000C2D Telugu letter bha
000C2E Telugu letter ma
000C2F Telugu letter ya
000C30 Telugu letter ra
000C31 Telugu letter rra
000C32 Telugu letter la
000C33 Telugu letter lla
000C34 Telugu letter llla
000C35 Telugu letter va
000C36 Telugu letter sha
000C37 Telugu letter ssa
000C38 Telugu letter sa
000C39 Telugu letter ha
000C3C Telugu sign nukta
000C3D Telugu sign avagraha
000C3E Telugu vowel sign aa
000C3F Telugu vowel sign i
000C40 Telugu vowel sign ii
000C41 Telugu vowel sign u
000C42 Telugu vowel sign uu
000C43 Telugu vowel sign vocalic r
000C44 Telugu vowel sign vocalic rr
000C46 Telugu vowel sign e
000C47 Telugu vowel sign ee
000C48 Telugu vowel sign ai
000C4A Telugu vowel sign o
000C4B Telugu vowel sign oo
000C4C Telugu vowel sign au
000C4D Telugu sign virama
000C55 Telugu length mark
000C56 Telugu ai length mark
000C58 Telugu letter tsa
000C59 Telugu letter dza
000C5A Telugu letter rrra
000C5D Telugu letter nakaara pollu
000C60 Telugu letter vocalic rr
000C61 Telugu letter vocalic ll
000C62 Telugu vowel sign vocalic l
000C63 Telugu vowel sign vocalic ll
000C66 Telugu digit zero
000C67 Telugu digit one
000C68 Telugu digit two
000C69 Telugu digit three
000C6A Telugu digit four
000C6B Telugu digit five
000C6C Telugu digit six
000C6D Telugu digit seven
000C6E Telugu digit eight
000C6F Telugu digit nine
000C77 Telugu sign siddham
000C78 Telugu fraction digit zero for odd powers of four
000C79 Telugu fraction digit one for odd powers of four
000C7A Telugu fraction digit two for odd powers of four
000C7B Telugu fraction digit three for odd powers of four
000C7C Telugu fraction digit one for even powers of four
000C7D Telugu fraction digit two for even powers of four
000C7E Telugu fraction digit three for even powers of four
000C7F Telugu sign tuumu
000C80 Kannada sign spacing candrabindu
000C81 Kannada sign candrabindu
000C82 Kannada sign anusvara
000C83 Kannada sign visarga
000C84 Kannada sign siddham
000C85 Kannada letter a
000C86 Kannada letter aa
000C87 Kannada letter i
000C88 Kannada letter ii
000C89 Kannada letter u
000C8A Kannada letter uu
000C8B Kannada letter vocalic r
000C8C Kannada letter vocalic l
000C8E Kannada letter e
000C8F Kannada letter ee
000C90 Kannada letter ai
000C92 Kannada letter o
000C93 Kannada letter oo
000C94 Kannada letter au
000C95 Kannada letter ka
000C96 Kannada letter kha
000C97 Kannada letter ga
000C98 Kannada letter gha
000C99 Kannada letter nga
000C9A Kannada letter ca
000C9B Kannada letter cha
000C9C Kannada letter ja
000C9D Kannada letter jha
000C9E Kannada letter nya
000C9F Kannada letter tta
000CA0 Kannada letter ttha
000CA1 Kannada letter dda
000CA2 Kannada letter ddha
000CA3 Kannada letter nna
000CA4 Kannada letter ta
000CA5 Kannada letter tha
000CA6 Kannada letter da
";

pub const NAMES_07: &'static str = "000CA7 Kannada letter dha
000CA8 Kannada letter na
000CAA Kannada letter pa
000CAB Kannada letter pha
000CAC Kannada letter ba
000CAD Kannada letter bha
000CAE Kannada letter ma
000CAF Kannada letter ya
000CB0 Kannada letter ra
000CB1 Kannada letter rra
000CB2 Kannada letter la
000CB3 Kannada letter lla
000CB5 Kannada letter va
000CB6 Kannada letter sha
000CB7 Kannada letter ssa
000CB8 Kannada letter sa
000CB9 Kannada letter ha
000CBC Kannada sign nukta
000CBD Kannada sign avagraha
000CBE Kannada vowel sign aa
000CBF Kannada vowel sign i
000CC0 Kannada vowel sign ii
000CC1 Kannada vowel sign u
000CC2 Kannada vowel sign uu
000CC3 Kannada vowel sign vocalic r
000CC4 Kannada vowel sign vocalic rr
000CC6 Kannada vowel sign e
000CC7 Kannada vowel sign ee
000CC8 Kannada vowel sign ai
000CCA Kannada vowel sign o
000CCB Kannada vowel sign oo
000CCC Kannada vowel sign au
000CCD Kannada sign virama
000CD5 Kannada length mark
000CD6 Kannada ai length mark
000CDD Kannada letter nakaara pollu
000CDE Kannada letter fa
000CE0 Kannada letter vocalic rr
000CE1 Kannada letter vocalic ll
000CE2 Kannada vowel sign vocalic l
000CE3 Kannada vowel sign vocalic ll
000CE6 Kannada digit zero
000CE7 Kannada digit one
000CE8 Kannada digit two
000CE9 Kannada digit three
000CEA Kannada digit four
000CEB Kannada digit five
000CEC Kannada digit six
000CED Kannada digit seven
000CEE Kannada digit eight
000CEF Kannada digit nine
000CF1 Kannada sign jihvamuliya
000CF2 Kannada sign upadhmaniya
000D00 Malayalam sign combining anusvara above
000D01 Malayalam sign candrabindu
000D02 Malayalam sign anusvara
000D03 Malayalam sign visarga
000D04 Malayalam letter vedic anusvara
000D05 Malayalam letter a
000D06 Malayalam letter aa
000D07 Malayalam letter i
000D08 Malayalam letter ii
000D09 Malayalam letter u
000D0A Malayalam letter uu
000D0B Malayalam letter vocalic r
000D0C Malayalam letter vocalic l
000D0E Malayalam letter e
000D0F Malayalam letter ee
000D10 Malayalam letter ai
000D12 Malayalam letter o
000D13 Malayalam letter oo
000D14 Malayalam letter au
000D15 Malayalam letter ka
000D16 Malayalam letter kha
000D17 Malayalam letter ga
000D18 Malayalam letter gha
000D19 Malayalam letter nga
000D1A Malayalam letter ca
000D1B Malayalam letter cha
000D1C Malayalam letter ja
000D1D Malayalam letter jha
000D1E Malayalam letter nya
000D1F Malayalam letter tta
000D20 Malayalam letter ttha
000D21 Malayalam letter dda
000D22 Malayalam letter ddha
000D23 Malayalam letter nna
000D24 Malayalam letter ta
000D25 Malayalam letter tha
000D26 Malayalam letter da
000D27 Malayalam letter dha
000D28 Malayalam letter na
000D29 Malayalam letter nnna
000D2A Malayalam letter pa
000D2B Malayalam letter pha
000D2C Malayalam letter ba
000D2D Malayalam letter bha
000D2E Malayalam letter ma
000D2F Malayalam letter ya
000D30 Malayalam letter ra
000D31 Malayalam letter rra
000D32 Malayalam letter la
000D33 Malayalam letter lla
000D34 Malayalam letter llla
000D35 Malayalam letter va
000D36 Malayalam letter sha
000D37 Malayalam letter ssa
000D38 Malayalam letter sa
000D39 Malayalam letter ha
000D3A Malayalam letter ttta
000D3B Malayalam sign vertical bar virama
000D3C Malayalam sign circular virama
000D3D Malayalam sign avagraha
000D3E Malayalam vowel sign aa
000D3F Malayalam vowel sign i
000D40 Malayalam vowel sign ii
000D41 Malayalam vowel sign u
000D42 Malayalam vowel sign uu
000D43 Malayalam vowel sign vocalic r
000D44 Malayalam vowel sign vocalic rr
000D46 Malayalam vowel sign e
000D47 Malayalam vowel sign ee
000D48 Malayalam vowel sign ai
000D4A Malayalam vowel sign o
000D4B Malayalam vowel sign oo
000D4C Malayalam vowel sign au
000D4D Malayalam sign virama
000D4E Malayalam letter dot reph
000D4F Malayalam sign para
000D54 Malayalam letter chillu m
000D55 Malayalam letter chillu y
000D56 Malayalam letter chillu lll
000D57 Malayalam au length mark
000D58 Malayalam fraction one one-hundred-and-sixtieth
000D59 Malayalam fraction one fortieth
000D5A Malayalam fraction three eightieths
000D5B Malayalam fraction one twentieth
000D5C Malayalam fraction one tenth
000D5D Malayalam fraction three twentieths
000D5E Malayalam fraction one fifth
000D5F Malayalam letter archaic ii
000D60 Malayalam letter vocalic rr
000D61 Malayalam letter vocalic ll
000D62 Malayalam vowel sign vocalic l
000D63 Malayalam vowel sign vocalic ll
000D66 Malayalam digit zero
000D67 Malayalam digit one
000D68 Malayalam digit two
000D69 Malayalam digit three
000D6A Malayalam digit four
000D6B Malayalam digit five
000D6C Malayalam digit six
000D6D Malayalam digit seven
000D6E Malayalam digit eight
000D6F Malayalam digit nine
000D70 Malayalam number ten
000D71 Malayalam number one hundred
000D72 Malayalam number one thousand
000D73 Malayalam fraction one quarter
000D74 Malayalam fraction one half
000D75 Malayalam fraction three quarters
000D76 Malayalam fraction one sixteenth
000D77 Malayalam fraction one eighth
000D78 Malayalam fraction three sixteenths
000D79 Malayalam date mark
000D7A Malayalam letter chillu nn
000D7B Malayalam letter chillu n
000D7C Malayalam letter chillu rr
000D7D Malayalam letter chillu l
000D7E Malayalam letter chillu ll
000D7F Malayalam letter chillu k
000D81 Sinhala sign candrabindu
000D82 Sinhala sign anusvaraya
000D83 Sinhala sign visargaya
000D85 Sinhala letter ayanna
000D86 Sinhala letter aayanna
000D87 Sinhala letter aeyanna
000D88 Sinhala letter aeeyanna
000D89 Sinhala letter iyanna
000D8A Sinhala letter iiyanna
000D8B Sinhala letter uyanna
000D8C Sinhala letter uuyanna
000D8D Sinhala letter iruyanna
000D8E Sinhala letter iruuyanna
000D8F Sinhala letter iluyanna
000D90 Sinhala letter iluuyanna
000D91 Sinhala letter eyanna
000D92 Sinhala letter eeyanna
000D93 Sinhala letter aiyanna
000D94 Sinhala letter oyanna
000D95 Sinhala letter ooyanna
000D96 Sinhala letter auyanna
000D9A Sinhala letter alpapraana kayanna
000D9B Sinhala letter mahaapraana kayanna
000D9C Sinhala letter alpapraana gayanna
000D9D Sinhala letter mahaapraana gayanna
000D9E Sinhala letter kantaja naasikyaya
000D9F Sinhala letter sanyaka gayanna
000DA0 Sinhala letter alpapraana cayanna
000DA1 Sinhala letter mahaapraana cayanna
000DA2 Sinhala letter alpapraana jayanna
000DA3 Sinhala letter mahaapraana jayanna
000DA4 Sinhala letter taaluja naasikyaya
000DA5 Sinhala letter taaluja sanyooga naaksikyaya
000DA6 Sinhala letter sanyaka jayanna
000DA7 Sinhala letter alpapraana ttayanna
000DA8 Sinhala letter mahaapraana ttayanna
000DA9 Sinhala letter alpapraana ddayanna
000DAA Sinhala letter mahaapraana ddayanna
000DAB Sinhala letter muurdhaja nayanna
000DAC Sinhala letter sanyaka ddayanna
000DAD Sinhala letter alpapraana tayanna
000DAE Sinhala letter mahaapraana tayanna
000DAF Sinhala letter alpapraana dayanna
000DB0 Sinhala letter mahaapraana dayanna
000DB1 Sinhala letter dantaja nayanna
000DB3 Sinhala letter sanyaka dayanna
000DB4 Sinhala letter alpapraana payanna
000DB5 Sinhala letter mahaapraana payanna
000DB6 Sinhala letter alpapraana bayanna
000DB7 Sinhala letter mahaapraana bayanna
000DB8 Sinhala letter mayanna
000DB9 Sinhala letter amba bayanna
000DBA Sinhala letter yayanna
000DBB Sinhala letter rayanna
000DBD Sinhala letter dantaja layanna
000DC0 Sinhala letter vayanna
000DC1 Sinhala letter taaluja sayanna
000DC2 Sinhala letter muurdhaja sayanna
000DC3 Sinhala letter dantaja sayanna
000DC4 Sinhala letter hayanna
000DC5 Sinhala letter muurdhaja layanna
000DC6 Sinhala letter fayanna
000DCA Sinhala sign al-lakuna
000DCF Sinhala vowel sign aela-pilla
000DD0 Sinhala vowel sign ketti aeda-pilla
000DD1 Sinhala vowel sign diga aeda-pilla
000DD2 Sinhala vowel sign ketti is-pilla
000DD3 Sinhala vowel sign diga is-pilla
000DD4 Sinhala vowel sign ketti paa-pilla
000DD6 Sinhala vowel sign diga paa-pilla
000DD8 Sinhala vowel sign gaetta-pilla
000DD9 Sinhala vowel sign kombuva
000DDA Sinhala vowel sign diga kombuva
000DDB Sinhala vowel sign kombu deka
000DDC Sinhala vowel sign kombuva haa aela-pilla
000DDD Sinhala vowel sign kombuva haa diga aela-pilla
000DDE Sinhala vowel sign kombuva haa gayanukitta
000DDF Sinhala vowel sign gayanukitta
000DE6 Sinhala lith digit zero
000DE7 Sinhala lith digit one
000DE8 Sinhala lith digit two
000DE9 Sinhala lith digit three
000DEA Sinhala lith digit four
000DEB Sinhala lith digit five
000DEC Sinhala lith digit six
000DED Sinhala lith digit seven
000DEE Sinhala lith digit eight
000DEF Sinhala lith digit nine
000DF2 Sinhala vowel sign diga gaetta-pilla
000DF3 Sinhala vowel sign diga gayanukitta
000DF4 Sinhala punctuation kunddaliya
000E01 Thai character ko kai
000E02 Thai character kho khai
000E03 Thai character kho khuat
000E04 Thai character kho khwai
000E05 Thai character kho khon
000E06 Thai character kho rakhang
000E07 Thai character ngo ngu
000E08 Thai character cho chan
000E09 Thai character cho ching
000E0A Thai character cho chang
000E0B Thai character so so
000E0C Thai character cho choe
000E0D Thai character yo ying
000E0E Thai character do chada
000E0F Thai character to patak
000E10 Thai character tho than
000E11 Thai character tho nangmontho
000E12 Thai character tho phuthao
000E13 Thai character no nen
000E14 Thai character do dek
000E15 Thai character to tao
000E16 Thai character tho thung
000E17 Thai character tho thahan
000E18 Thai character tho thong
000E19 Thai character no nu
000E1A Thai character bo baimai
000E1B Thai character po pla
000E1C Thai character pho phung
000E1D Thai character fo fa
000E1E Thai character pho phan
000E1F Thai character fo fan
000E20 Thai character pho samphao
000E21 Thai character mo ma
000E22 Thai character yo yak
000E23 Thai character ro rua
000E24 Thai character ru
000E25 Thai character lo ling
000E26 Thai character lu
000E27 Thai character wo waen
000E28 Thai character so sala
000E29 Thai character so rusi
000E2A Thai character so sua
000E2B Thai character ho hip
000E2C Thai character lo chula
000E2D Thai character o ang
000E2E Thai character ho nokhuk
000E2F Thai character paiyannoi
000E30 Thai character sara a
000E31 Thai character mai han-akat
000E32 Thai character sara aa
000E33 Thai character sara am
000E34 Thai character sara i
000E35 Thai character sara ii
000E36 Thai character sara ue
000E37 Thai character sara uee
000E38 Thai character sara u
000E39 Thai character sara uu
000E3A Thai character phinthu
000E3F Thai currency symbol baht
000E40 Thai character sara e
000E41 Thai character sara ae
000E42 Thai character sara o
000E43 Thai character sara ai maimuan
000E44 Thai character sara ai maimalai
000E45 Thai character lakkhangyao
000E46 Thai character maiyamok
000E47 Thai character maitaikhu
000E48 Thai character mai ek
000E49 Thai character mai tho
000E4A Thai character mai tri
000E4B Thai character mai chattawa
000E4C Thai character thanthakhat
000E4D Thai character nikhahit
000E4E Thai character yamakkan
000E4F Thai character fongman
000E50 Thai digit zero
000E51 Thai digit one
000E52 Thai digit two
000E53 Thai digit three
000E54 Thai digit four
000E55 Thai digit five
000E56 Thai digit six
000E57 Thai digit seven
000E58 Thai digit eight
000E59 Thai digit nine
000E5A Thai character angkhankhu
000E5B Thai character khomut
000E81 Lao letter ko
000E82 Lao letter kho sung
000E84 Lao letter kho tam
000E86 Lao letter pali gha
000E87 Lao letter ngo
000E88 Lao letter co
000E89 Lao letter pali cha
000E8A Lao letter so tam
000E8C Lao letter pali jha
000E8D Lao letter nyo
000E8E Lao letter pali nya
000E8F Lao letter pali tta
000E90 Lao letter pali ttha
000E91 Lao letter pali dda
000E92 Lao letter pali ddha
000E93 Lao letter pali nna
000E94 Lao letter do
000E95 Lao letter to
000E96 Lao letter tho sung
000E97 Lao letter tho tam
000E98 Lao letter pali dha
000E99 Lao letter no
000E9A Lao letter bo
000E9B Lao letter po
000E9C Lao letter pho sung
000E9D Lao letter fo tam
000E9E Lao letter pho tam
000E9F Lao letter fo sung
000EA0 Lao letter pali bha
000EA1 Lao letter mo
000EA2 Lao letter yo
000EA3 Lao letter lo ling
000EA5 Lao letter lo loot
000EA7 Lao letter wo
000EA8 Lao letter sanskrit sha
000EA9 Lao letter sanskrit ssa
000EAA Lao letter so sung
000EAB Lao letter ho sung
000EAC Lao letter pali lla
000EAD Lao letter o
000EAE Lao letter ho tam
000EAF Lao ellipsis
000EB0 Lao vowel sign a
000EB1 Lao vowel sign mai kan
000EB2 Lao vowel sign aa
000EB3 Lao vowel sign am
000EB4 Lao vowel sign i
000EB5 Lao vowel sign ii
000EB6 Lao vowel sign y
000EB7 Lao vowel sign yy
000EB8 Lao vowel sign u
000EB9 Lao vowel sign uu
000EBA Lao sign pali virama
000EBB Lao vowel sign mai kon
000EBC Lao semivowel sign lo
000EBD Lao semivowel sign nyo
000EC0 Lao vowel sign e
000EC1 Lao vowel sign ei
000EC2 Lao vowel sign o
000EC3 Lao vowel sign ay
000EC4 Lao vowel sign ai
000EC6 Lao ko la
000EC8 Lao tone mai ek
000EC9 Lao tone mai tho
000ECA Lao tone mai ti
000ECB Lao tone mai catawa
000ECC Lao cancellation mark
000ECD Lao niggahita
000ED0 Lao digit zero
000ED1 Lao digit one
000ED2 Lao digit two
000ED3 Lao digit three
000ED4 Lao digit four
000ED5 Lao digit five
000ED6 Lao digit six
000ED7 Lao digit seven
000ED8 Lao digit eight
000ED9 Lao digit nine
000EDC Lao ho no
000EDD Lao ho mo
000EDE Lao letter khmu go
000EDF Lao letter khmu nyo
000F00 Tibetan syllable om
000F01 Tibetan mark gter yig mgo truncated a
000F02 Tibetan mark gter yig mgo -um rnam bcad ma
000F03 Tibetan mark gter yig mgo -um gter tsheg ma
000F04 Tibetan mark initial yig mgo mdun ma
000F05 Tibetan mark closing yig mgo sgab ma
000F06 Tibetan mark caret yig mgo phur shad ma
000F07 Tibetan mark yig mgo tsheg shad ma
000F08 Tibetan mark sbrul shad
000F09 Tibetan mark bskur yig mgo
000F0A Tibetan mark bka- shog yig mgo
000F0B Tibetan mark intersyllabic tsheg
000F0C Tibetan mark delimiter tsheg bstar
000F0D Tibetan mark shad
000F0E Tibetan mark nyis shad
000F0F Tibetan mark tsheg shad
000F10 Tibetan mark nyis tsheg shad
000F11 Tibetan mark rin chen spungs shad
000F12 Tibetan mark rgya gram shad
000F13 Tibetan mark caret -dzud rtags me long can
000F14 Tibetan mark gter tsheg
000F15 Tibetan logotype sign chad rtags
";

pub const NAMES_08: &'static str = "000F16 Tibetan logotype sign lhag rtags
000F17 Tibetan astrological sign sgra gcan -char rtags
000F18 Tibetan astrological sign -khyud pa
000F19 Tibetan astrological sign sdong tshugs
000F1A Tibetan sign rdel dkar gcig
000F1B Tibetan sign rdel dkar gnyis
000F1C Tibetan sign rdel dkar gsum
000F1D Tibetan sign rdel nag gcig
000F1E Tibetan sign rdel nag gnyis
000F1F Tibetan sign rdel dkar rdel nag
000F20 Tibetan digit zero
000F21 Tibetan digit one
000F22 Tibetan digit two
000F23 Tibetan digit three
000F24 Tibetan digit four
000F25 Tibetan digit five
000F26 Tibetan digit six
000F27 Tibetan digit seven
000F28 Tibetan digit eight
000F29 Tibetan digit nine
000F2A Tibetan digit half one
000F2B Tibetan digit half two
000F2C Tibetan digit half three
000F2D Tibetan digit half four
000F2E Tibetan digit half five
000F2F Tibetan digit half six
000F30 Tibetan digit half seven
000F31 Tibetan digit half eight
000F32 Tibetan digit half nine
000F33 Tibetan digit half zero
000F34 Tibetan mark bsdus rtags
000F35 Tibetan mark ngas bzung nyi zla
000F36 Tibetan mark caret -dzud rtags bzhi mig can
000F37 Tibetan mark ngas bzung sgor rtags
000F38 Tibetan mark che mgo
000F39 Tibetan mark tsa -phru
000F3A Tibetan mark gug rtags gyon
000F3B Tibetan mark gug rtags gyas
000F3C Tibetan mark ang khang gyon
000F3D Tibetan mark ang khang gyas
000F3E Tibetan sign yar tshes
000F3F Tibetan sign mar tshes
000F40 Tibetan letter ka
000F41 Tibetan letter kha
000F42 Tibetan letter ga
000F43 Tibetan letter gha
000F44 Tibetan letter nga
000F45 Tibetan letter ca
000F46 Tibetan letter cha
000F47 Tibetan letter ja
000F49 Tibetan letter nya
000F4A Tibetan letter tta
000F4B Tibetan letter ttha
000F4C Tibetan letter dda
000F4D Tibetan letter ddha
000F4E Tibetan letter nna
000F4F Tibetan letter ta
000F50 Tibetan letter tha
000F51 Tibetan letter da
000F52 Tibetan letter dha
000F53 Tibetan letter na
000F54 Tibetan letter pa
000F55 Tibetan letter pha
000F56 Tibetan letter ba
000F57 Tibetan letter bha
000F58 Tibetan letter ma
000F59 Tibetan letter tsa
000F5A Tibetan letter tsha
000F5B Tibetan letter dza
000F5C Tibetan letter dzha
000F5D Tibetan letter wa
000F5E Tibetan letter zha
000F5F Tibetan letter za
000F60 Tibetan letter -a
000F61 Tibetan letter ya
000F62 Tibetan letter ra
000F63 Tibetan letter la
000F64 Tibetan letter sha
000F65 Tibetan letter ssa
000F66 Tibetan letter sa
000F67 Tibetan letter ha
000F68 Tibetan letter a
000F69 Tibetan letter kssa
000F6A Tibetan letter fixed-form ra
000F6B Tibetan letter kka
000F6C Tibetan letter rra
000F71 Tibetan vowel sign aa
000F72 Tibetan vowel sign i
000F73 Tibetan vowel sign ii
000F74 Tibetan vowel sign u
000F75 Tibetan vowel sign uu
000F76 Tibetan vowel sign vocalic r
000F77 Tibetan vowel sign vocalic rr
000F78 Tibetan vowel sign vocalic l
000F79 Tibetan vowel sign vocalic ll
000F7A Tibetan vowel sign e
000F7B Tibetan vowel sign ee
000F7C Tibetan vowel sign o
000F7D Tibetan vowel sign oo
000F7E Tibetan sign rjes su nga ro
000F7F Tibetan sign rnam bcad
000F80 Tibetan vowel sign reversed i
000F81 Tibetan vowel sign reversed ii
000F82 Tibetan sign nyi zla naa da
000F83 Tibetan sign sna ldan
000F84 Tibetan mark halanta
000F85 Tibetan mark paluta
000F86 Tibetan sign lci rtags
000F87 Tibetan sign yang rtags
000F88 Tibetan sign lce tsa can
000F89 Tibetan sign mchu can
000F8A Tibetan sign gru can rgyings
000F8B Tibetan sign gru med rgyings
000F8C Tibetan sign inverted mchu can
000F8D Tibetan subjoined sign lce tsa can
000F8E Tibetan subjoined sign mchu can
000F8F Tibetan subjoined sign inverted mchu can
000F90 Tibetan subjoined letter ka
000F91 Tibetan subjoined letter kha
000F92 Tibetan subjoined letter ga
000F93 Tibetan subjoined letter gha
000F94 Tibetan subjoined letter nga
000F95 Tibetan subjoined letter ca
000F96 Tibetan subjoined letter cha
000F97 Tibetan subjoined letter ja
000F99 Tibetan subjoined letter nya
000F9A Tibetan subjoined letter tta
000F9B Tibetan subjoined letter ttha
000F9C Tibetan subjoined letter dda
000F9D Tibetan subjoined letter ddha
000F9E Tibetan subjoined letter nna
000F9F Tibetan subjoined letter ta
000FA0 Tibetan subjoined letter tha
000FA1 Tibetan subjoined letter da
000FA2 Tibetan subjoined letter dha
000FA3 Tibetan subjoined letter na
000FA4 Tibetan subjoined letter pa
000FA5 Tibetan subjoined letter pha
000FA6 Tibetan subjoined letter ba
000FA7 Tibetan subjoined letter bha
000FA8 Tibetan subjoined letter ma
000FA9 Tibetan subjoined letter tsa
000FAA Tibetan subjoined letter tsha
000FAB Tibetan subjoined letter dza
000FAC Tibetan subjoined letter dzha
000FAD Tibetan subjoined letter wa
000FAE Tibetan subjoined letter zha
000FAF Tibetan subjoined letter za
000FB0 Tibetan subjoined letter -a
000FB1 Tibetan subjoined letter ya
000FB2 Tibetan subjoined letter ra
000FB3 Tibetan subjoined letter la
000FB4 Tibetan subjoined letter sha
000FB5 Tibetan subjoined letter ssa
000FB6 Tibetan subjoined letter sa
000FB7 Tibetan subjoined letter ha
000FB8 Tibetan subjoined letter a
000FB9 Tibetan subjoined letter kssa
000FBA Tibetan subjoined letter fixed-form wa
000FBB Tibetan subjoined letter fixed-form ya
000FBC Tibetan subjoined letter fixed-form ra
000FBE Tibetan ku ru kha
000FBF Tibetan ku ru kha bzhi mig can
000FC0 Tibetan cantillation sign heavy beat
000FC1 Tibetan cantillation sign light beat
000FC2 Tibetan cantillation sign cang te-u
000FC3 Tibetan cantillation sign sbub -chal
000FC4 Tibetan symbol dril bu
000FC5 Tibetan symbol rdo rje
000FC6 Tibetan symbol padma gdan
000FC7 Tibetan symbol rdo rje rgya gram
000FC8 Tibetan symbol phur pa
000FC9 Tibetan symbol nor bu
000FCA Tibetan symbol nor bu nyis -khyil
000FCB Tibetan symbol nor bu gsum -khyil
000FCC Tibetan symbol nor bu bzhi -khyil
000FCE Tibetan sign rdel nag rdel dkar
000FCF Tibetan sign rdel nag gsum
000FD0 Tibetan mark bska- shog gi mgo rgyan
000FD1 Tibetan mark mnyam yig gi mgo rgyan
000FD2 Tibetan mark nyis tsheg
000FD3 Tibetan mark initial brda rnying yig mgo mdun ma
000FD4 Tibetan mark closing brda rnying yig mgo sgab ma
000FD5 Right-facing svasti sign
000FD6 Left-facing svasti sign
000FD7 Right-facing svasti sign with dots
000FD8 Left-facing svasti sign with dots
000FD9 Tibetan mark leading mchan rtags
000FDA Tibetan mark trailing mchan rtags
001000 Myanmar letter ka
001001 Myanmar letter kha
001002 Myanmar letter ga
001003 Myanmar letter gha
001004 Myanmar letter nga
001005 Myanmar letter ca
001006 Myanmar letter cha
001007 Myanmar letter ja
001008 Myanmar letter jha
001009 Myanmar letter nya
00100A Myanmar letter nnya
00100B Myanmar letter tta
00100C Myanmar letter ttha
00100D Myanmar letter dda
00100E Myanmar letter ddha
00100F Myanmar letter nna
001010 Myanmar letter ta
001011 Myanmar letter tha
001012 Myanmar letter da
001013 Myanmar letter dha
001014 Myanmar letter na
001015 Myanmar letter pa
001016 Myanmar letter pha
001017 Myanmar letter ba
001018 Myanmar letter bha
001019 Myanmar letter ma
00101A Myanmar letter ya
00101B Myanmar letter ra
00101C Myanmar letter la
00101D Myanmar letter wa
00101E Myanmar letter sa
00101F Myanmar letter ha
001020 Myanmar letter lla
001021 Myanmar letter a
001022 Myanmar letter shan a
001023 Myanmar letter i
001024 Myanmar letter ii
001025 Myanmar letter u
001026 Myanmar letter uu
001027 Myanmar letter e
001028 Myanmar letter mon e
001029 Myanmar letter o
00102A Myanmar letter au
00102B Myanmar vowel sign tall aa
00102C Myanmar vowel sign aa
00102D Myanmar vowel sign i
00102E Myanmar vowel sign ii
00102F Myanmar vowel sign u
001030 Myanmar vowel sign uu
001031 Myanmar vowel sign e
001032 Myanmar vowel sign ai
001033 Myanmar vowel sign mon ii
001034 Myanmar vowel sign mon o
001035 Myanmar vowel sign e above
001036 Myanmar sign anusvara
001037 Myanmar sign dot below
001038 Myanmar sign visarga
001039 Myanmar sign virama
00103A Myanmar sign asat
00103B Myanmar consonant sign medial ya
00103C Myanmar consonant sign medial ra
00103D Myanmar consonant sign medial wa
00103E Myanmar consonant sign medial ha
00103F Myanmar letter great sa
001040 Myanmar digit zero
001041 Myanmar digit one
001042 Myanmar digit two
001043 Myanmar digit three
001044 Myanmar digit four
001045 Myanmar digit five
001046 Myanmar digit six
001047 Myanmar digit seven
001048 Myanmar digit eight
001049 Myanmar digit nine
00104A Myanmar sign little section
00104B Myanmar sign section
00104C Myanmar symbol locative
00104D Myanmar symbol completed
00104E Myanmar symbol aforementioned
00104F Myanmar symbol genitive
001050 Myanmar letter sha
001051 Myanmar letter ssa
001052 Myanmar letter vocalic r
001053 Myanmar letter vocalic rr
001054 Myanmar letter vocalic l
001055 Myanmar letter vocalic ll
001056 Myanmar vowel sign vocalic r
001057 Myanmar vowel sign vocalic rr
001058 Myanmar vowel sign vocalic l
001059 Myanmar vowel sign vocalic ll
00105A Myanmar letter mon nga
00105B Myanmar letter mon jha
00105C Myanmar letter mon bba
00105D Myanmar letter mon bbe
00105E Myanmar consonant sign mon medial na
00105F Myanmar consonant sign mon medial ma
001060 Myanmar consonant sign mon medial la
001061 Myanmar letter sgaw karen sha
001062 Myanmar vowel sign sgaw karen eu
001063 Myanmar tone mark sgaw karen hathi
001064 Myanmar tone mark sgaw karen ke pho
001065 Myanmar letter western pwo karen tha
001066 Myanmar letter western pwo karen pwa
001067 Myanmar vowel sign western pwo karen eu
001068 Myanmar vowel sign western pwo karen ue
001069 Myanmar sign western pwo karen tone-1
00106A Myanmar sign western pwo karen tone-2
00106B Myanmar sign western pwo karen tone-3
00106C Myanmar sign western pwo karen tone-4
00106D Myanmar sign western pwo karen tone-5
00106E Myanmar letter eastern pwo karen nna
00106F Myanmar letter eastern pwo karen ywa
001070 Myanmar letter eastern pwo karen ghwa
001071 Myanmar vowel sign geba karen i
001072 Myanmar vowel sign kayah oe
001073 Myanmar vowel sign kayah u
001074 Myanmar vowel sign kayah ee
001075 Myanmar letter shan ka
001076 Myanmar letter shan kha
001077 Myanmar letter shan ga
001078 Myanmar letter shan ca
001079 Myanmar letter shan za
00107A Myanmar letter shan nya
00107B Myanmar letter shan da
00107C Myanmar letter shan na
00107D Myanmar letter shan pha
00107E Myanmar letter shan fa
00107F Myanmar letter shan ba
001080 Myanmar letter shan tha
001081 Myanmar letter shan ha
001082 Myanmar consonant sign shan medial wa
001083 Myanmar vowel sign shan aa
001084 Myanmar vowel sign shan e
001085 Myanmar vowel sign shan e above
001086 Myanmar vowel sign shan final y
001087 Myanmar sign shan tone-2
001088 Myanmar sign shan tone-3
001089 Myanmar sign shan tone-5
00108A Myanmar sign shan tone-6
00108B Myanmar sign shan council tone-2
00108C Myanmar sign shan council tone-3
00108D Myanmar sign shan council emphatic tone
00108E Myanmar letter rumai palaung fa
00108F Myanmar sign rumai palaung tone-5
001090 Myanmar shan digit zero
001091 Myanmar shan digit one
001092 Myanmar shan digit two
001093 Myanmar shan digit three
001094 Myanmar shan digit four
001095 Myanmar shan digit five
001096 Myanmar shan digit six
001097 Myanmar shan digit seven
001098 Myanmar shan digit eight
001099 Myanmar shan digit nine
00109A Myanmar sign khamti tone-1
00109B Myanmar sign khamti tone-3
00109C Myanmar vowel sign aiton a
00109D Myanmar vowel sign aiton ai
00109E Myanmar symbol shan one
00109F Myanmar symbol shan exclamation
0010A0 Georgian capital letter an
0010A1 Georgian capital letter ban
0010A2 Georgian capital letter gan
0010A3 Georgian capital letter don
0010A4 Georgian capital letter en
0010A5 Georgian capital letter vin
0010A6 Georgian capital letter zen
0010A7 Georgian capital letter tan
0010A8 Georgian capital letter in
0010A9 Georgian capital letter kan
0010AA Georgian capital letter las
0010AB Georgian capital letter man
0010AC Georgian capital letter nar
0010AD Georgian capital letter on
0010AE Georgian capital letter par
0010AF Georgian capital letter zhar
0010B0 Georgian capital letter rae
0010B1 Georgian capital letter san
0010B2 Georgian capital letter tar
0010B3 Georgian capital letter un
0010B4 Georgian capital letter phar
0010B5 Georgian capital letter khar
0010B6 Georgian capital letter ghan
0010B7 Georgian capital letter qar
0010B8 Georgian capital letter shin
0010B9 Georgian capital letter chin
0010BA Georgian capital letter can
0010BB Georgian capital letter jil
0010BC Georgian capital letter cil
0010BD Georgian capital letter char
0010BE Georgian capital letter xan
0010BF Georgian capital letter jhan
0010C0 Georgian capital letter hae
0010C1 Georgian capital letter he
0010C2 Georgian capital letter hie
0010C3 Georgian capital letter we
0010C4 Georgian capital letter har
0010C5 Georgian capital letter hoe
0010C7 Georgian capital letter yn
0010CD Georgian capital letter aen
0010D0 Georgian letter an
0010D1 Georgian letter ban
0010D2 Georgian letter gan
0010D3 Georgian letter don
0010D4 Georgian letter en
0010D5 Georgian letter vin
0010D6 Georgian letter zen
0010D7 Georgian letter tan
0010D8 Georgian letter in
0010D9 Georgian letter kan
0010DA Georgian letter las
0010DB Georgian letter man
0010DC Georgian letter nar
0010DD Georgian letter on
0010DE Georgian letter par
0010DF Georgian letter zhar
0010E0 Georgian letter rae
0010E1 Georgian letter san
0010E2 Georgian letter tar
0010E3 Georgian letter un
0010E4 Georgian letter phar
0010E5 Georgian letter khar
0010E6 Georgian letter ghan
0010E7 Georgian letter qar
0010E8 Georgian letter shin
0010E9 Georgian letter chin
0010EA Georgian letter can
0010EB Georgian letter jil
0010EC Georgian letter cil
0010ED Georgian letter char
0010EE Georgian letter xan
0010EF Georgian letter jhan
0010F0 Georgian letter hae
0010F1 Georgian letter he
0010F2 Georgian letter hie
0010F3 Georgian letter we
0010F4 Georgian letter har
0010F5 Georgian letter hoe
0010F6 Georgian letter fi
0010F7 Georgian letter yn
0010F8 Georgian letter elifi
0010F9 Georgian letter turned gan
0010FA Georgian letter ain
0010FB Georgian paragraph separator
0010FC Modifier letter georgian nar
0010FD Georgian letter aen
";

pub const NAMES_09: &'static str = "0010FE Georgian letter hard sign
0010FF Georgian letter labial sign
001100 Hangul choseong kiyeok
001101 Hangul choseong ssangkiyeok
001102 Hangul choseong nieun
001103 Hangul choseong tikeut
001104 Hangul choseong ssangtikeut
001105 Hangul choseong rieul
001106 Hangul choseong mieum
001107 Hangul choseong pieup
001108 Hangul choseong ssangpieup
001109 Hangul choseong sios
00110A Hangul choseong ssangsios
00110B Hangul choseong ieung
00110C Hangul choseong cieuc
00110D Hangul choseong ssangcieuc
00110E Hangul choseong chieuch
00110F Hangul choseong khieukh
001110 Hangul choseong thieuth
001111 Hangul choseong phieuph
001112 Hangul choseong hieuh
001113 Hangul choseong nieun-kiyeok
001114 Hangul choseong ssangnieun
001115 Hangul choseong nieun-tikeut
001116 Hangul choseong nieun-pieup
001117 Hangul choseong tikeut-kiyeok
001118 Hangul choseong rieul-nieun
001119 Hangul choseong ssangrieul
00111A Hangul choseong rieul-hieuh
00111B Hangul choseong kapyeounrieul
00111C Hangul choseong mieum-pieup
00111D Hangul choseong kapyeounmieum
00111E Hangul choseong pieup-kiyeok
00111F Hangul choseong pieup-nieun
001120 Hangul choseong pieup-tikeut
001121 Hangul choseong pieup-sios
001122 Hangul choseong pieup-sios-kiyeok
001123 Hangul choseong pieup-sios-tikeut
001124 Hangul choseong pieup-sios-pieup
001125 Hangul choseong pieup-ssangsios
001126 Hangul choseong pieup-sios-cieuc
001127 Hangul choseong pieup-cieuc
001128 Hangul choseong pieup-chieuch
001129 Hangul choseong pieup-thieuth
00112A Hangul choseong pieup-phieuph
00112B Hangul choseong kapyeounpieup
00112C Hangul choseong kapyeounssangpieup
00112D Hangul choseong sios-kiyeok
00112E Hangul choseong sios-nieun
00112F Hangul choseong sios-tikeut
001130 Hangul choseong sios-rieul
001131 Hangul choseong sios-mieum
001132 Hangul choseong sios-pieup
001133 Hangul choseong sios-pieup-kiyeok
001134 Hangul choseong sios-ssangsios
001135 Hangul choseong sios-ieung
001136 Hangul choseong sios-cieuc
001137 Hangul choseong sios-chieuch
001138 Hangul choseong sios-khieukh
001139 Hangul choseong sios-thieuth
00113A Hangul choseong sios-phieuph
00113B Hangul choseong sios-hieuh
00113C Hangul choseong chitueumsios
00113D Hangul choseong chitueumssangsios
00113E Hangul choseong ceongchieumsios
00113F Hangul choseong ceongchieumssangsios
001140 Hangul choseong pansios
001141 Hangul choseong ieung-kiyeok
001142 Hangul choseong ieung-tikeut
001143 Hangul choseong ieung-mieum
001144 Hangul choseong ieung-pieup
001145 Hangul choseong ieung-sios
001146 Hangul choseong ieung-pansios
001147 Hangul choseong ssangieung
001148 Hangul choseong ieung-cieuc
001149 Hangul choseong ieung-chieuch
00114A Hangul choseong ieung-thieuth
00114B Hangul choseong ieung-phieuph
00114C Hangul choseong yesieung
00114D Hangul choseong cieuc-ieung
00114E Hangul choseong chitueumcieuc
00114F Hangul choseong chitueumssangcieuc
001150 Hangul choseong ceongchieumcieuc
001151 Hangul choseong ceongchieumssangcieuc
001152 Hangul choseong chieuch-khieukh
001153 Hangul choseong chieuch-hieuh
001154 Hangul choseong chitueumchieuch
001155 Hangul choseong ceongchieumchieuch
001156 Hangul choseong phieuph-pieup
001157 Hangul choseong kapyeounphieuph
001158 Hangul choseong ssanghieuh
001159 Hangul choseong yeorinhieuh
00115A Hangul choseong kiyeok-tikeut
00115B Hangul choseong nieun-sios
00115C Hangul choseong nieun-cieuc
00115D Hangul choseong nieun-hieuh
00115E Hangul choseong tikeut-rieul
00115F Hangul choseong filler
001160 Hangul jungseong filler
001161 Hangul jungseong a
001162 Hangul jungseong ae
001163 Hangul jungseong ya
001164 Hangul jungseong yae
001165 Hangul jungseong eo
001166 Hangul jungseong e
001167 Hangul jungseong yeo
001168 Hangul jungseong ye
001169 Hangul jungseong o
00116A Hangul jungseong wa
00116B Hangul jungseong wae
00116C Hangul jungseong oe
00116D Hangul jungseong yo
00116E Hangul jungseong u
00116F Hangul jungseong weo
001170 Hangul jungseong we
001171 Hangul jungseong wi
001172 Hangul jungseong yu
001173 Hangul jungseong eu
001174 Hangul jungseong yi
001175 Hangul jungseong i
001176 Hangul jungseong a-o
001177 Hangul jungseong a-u
001178 Hangul jungseong ya-o
001179 Hangul jungseong ya-yo
00117A Hangul jungseong eo-o
00117B Hangul jungseong eo-u
00117C Hangul jungseong eo-eu
00117D Hangul jungseong yeo-o
00117E Hangul jungseong yeo-u
00117F Hangul jungseong o-eo
001180 Hangul jungseong o-e
001181 Hangul jungseong o-ye
001182 Hangul jungseong o-o
001183 Hangul jungseong o-u
001184 Hangul jungseong yo-ya
001185 Hangul jungseong yo-yae
001186 Hangul jungseong yo-yeo
001187 Hangul jungseong yo-o
001188 Hangul jungseong yo-i
001189 Hangul jungseong u-a
00118A Hangul jungseong u-ae
00118B Hangul jungseong u-eo-eu
00118C Hangul jungseong u-ye
00118D Hangul jungseong u-u
00118E Hangul jungseong yu-a
00118F Hangul jungseong yu-eo
001190 Hangul jungseong yu-e
001191 Hangul jungseong yu-yeo
001192 Hangul jungseong yu-ye
001193 Hangul jungseong yu-u
001194 Hangul jungseong yu-i
001195 Hangul jungseong eu-u
001196 Hangul jungseong eu-eu
001197 Hangul jungseong yi-u
001198 Hangul jungseong i-a
001199 Hangul jungseong i-ya
00119A Hangul jungseong i-o
00119B Hangul jungseong i-u
00119C Hangul jungseong i-eu
00119D Hangul jungseong i-araea
00119E Hangul jungseong araea
00119F Hangul jungseong araea-eo
0011A0 Hangul jungseong araea-u
0011A1 Hangul jungseong araea-i
0011A2 Hangul jungseong ssangaraea
0011A3 Hangul jungseong a-eu
0011A4 Hangul jungseong ya-u
0011A5 Hangul jungseong yeo-ya
0011A6 Hangul jungseong o-ya
0011A7 Hangul jungseong o-yae
0011A8 Hangul jongseong kiyeok
0011A9 Hangul jongseong ssangkiyeok
0011AA Hangul jongseong kiyeok-sios
0011AB Hangul jongseong nieun
0011AC Hangul jongseong nieun-cieuc
0011AD Hangul jongseong nieun-hieuh
0011AE Hangul jongseong tikeut
0011AF Hangul jongseong rieul
0011B0 Hangul jongseong rieul-kiyeok
0011B1 Hangul jongseong rieul-mieum
0011B2 Hangul jongseong rieul-pieup
0011B3 Hangul jongseong rieul-sios
0011B4 Hangul jongseong rieul-thieuth
0011B5 Hangul jongseong rieul-phieuph
0011B6 Hangul jongseong rieul-hieuh
0011B7 Hangul jongseong mieum
0011B8 Hangul jongseong pieup
0011B9 Hangul jongseong pieup-sios
0011BA Hangul jongseong sios
0011BB Hangul jongseong ssangsios
0011BC Hangul jongseong ieung
0011BD Hangul jongseong cieuc
0011BE Hangul jongseong chieuch
0011BF Hangul jongseong khieukh
0011C0 Hangul jongseong thieuth
0011C1 Hangul jongseong phieuph
0011C2 Hangul jongseong hieuh
0011C3 Hangul jongseong kiyeok-rieul
0011C4 Hangul jongseong kiyeok-sios-kiyeok
0011C5 Hangul jongseong nieun-kiyeok
0011C6 Hangul jongseong nieun-tikeut
0011C7 Hangul jongseong nieun-sios
0011C8 Hangul jongseong nieun-pansios
0011C9 Hangul jongseong nieun-thieuth
0011CA Hangul jongseong tikeut-kiyeok
0011CB Hangul jongseong tikeut-rieul
0011CC Hangul jongseong rieul-kiyeok-sios
0011CD Hangul jongseong rieul-nieun
0011CE Hangul jongseong rieul-tikeut
0011CF Hangul jongseong rieul-tikeut-hieuh
0011D0 Hangul jongseong ssangrieul
0011D1 Hangul jongseong rieul-mieum-kiyeok
0011D2 Hangul jongseong rieul-mieum-sios
0011D3 Hangul jongseong rieul-pieup-sios
0011D4 Hangul jongseong rieul-pieup-hieuh
0011D5 Hangul jongseong rieul-kapyeounpieup
0011D6 Hangul jongseong rieul-ssangsios
0011D7 Hangul jongseong rieul-pansios
0011D8 Hangul jongseong rieul-khieukh
0011D9 Hangul jongseong rieul-yeorinhieuh
0011DA Hangul jongseong mieum-kiyeok
0011DB Hangul jongseong mieum-rieul
0011DC Hangul jongseong mieum-pieup
0011DD Hangul jongseong mieum-sios
0011DE Hangul jongseong mieum-ssangsios
0011DF Hangul jongseong mieum-pansios
0011E0 Hangul jongseong mieum-chieuch
0011E1 Hangul jongseong mieum-hieuh
0011E2 Hangul jongseong kapyeounmieum
0011E3 Hangul jongseong pieup-rieul
0011E4 Hangul jongseong pieup-phieuph
0011E5 Hangul jongseong pieup-hieuh
0011E6 Hangul jongseong kapyeounpieup
0011E7 Hangul jongseong sios-kiyeok
0011E8 Hangul jongseong sios-tikeut
0011E9 Hangul jongseong sios-rieul
0011EA Hangul jongseong sios-pieup
0011EB Hangul jongseong pansios
0011EC Hangul jongseong ieung-kiyeok
0011ED Hangul jongseong ieung-ssangkiyeok
0011EE Hangul jongseong ssangieung
0011EF Hangul jongseong ieung-khieukh
0011F0 Hangul jongseong yesieung
0011F1 Hangul jongseong yesieung-sios
0011F2 Hangul jongseong yesieung-pansios
0011F3 Hangul jongseong phieuph-pieup
0011F4 Hangul jongseong kapyeounphieuph
0011F5 Hangul jongseong hieuh-nieun
0011F6 Hangul jongseong hieuh-rieul
0011F7 Hangul jongseong hieuh-mieum
0011F8 Hangul jongseong hieuh-pieup
0011F9 Hangul jongseong yeorinhieuh
0011FA Hangul jongseong kiyeok-nieun
0011FB Hangul jongseong kiyeok-pieup
0011FC Hangul jongseong kiyeok-chieuch
0011FD Hangul jongseong kiyeok-khieukh
0011FE Hangul jongseong kiyeok-hieuh
0011FF Hangul jongseong ssangnieun
001200 Ethiopic syllable ha
001201 Ethiopic syllable hu
001202 Ethiopic syllable hi
001203 Ethiopic syllable haa
001204 Ethiopic syllable hee
001205 Ethiopic syllable he
001206 Ethiopic syllable ho
001207 Ethiopic syllable hoa
001208 Ethiopic syllable la
001209 Ethiopic syllable lu
00120A Ethiopic syllable li
00120B Ethiopic syllable laa
00120C Ethiopic syllable lee
00120D Ethiopic syllable le
00120E Ethiopic syllable lo
00120F Ethiopic syllable lwa
001210 Ethiopic syllable hha
001211 Ethiopic syllable hhu
001212 Ethiopic syllable hhi
001213 Ethiopic syllable hhaa
001214 Ethiopic syllable hhee
001215 Ethiopic syllable hhe
001216 Ethiopic syllable hho
001217 Ethiopic syllable hhwa
001218 Ethiopic syllable ma
001219 Ethiopic syllable mu
00121A Ethiopic syllable mi
00121B Ethiopic syllable maa
00121C Ethiopic syllable mee
00121D Ethiopic syllable me
00121E Ethiopic syllable mo
00121F Ethiopic syllable mwa
001220 Ethiopic syllable sza
001221 Ethiopic syllable szu
001222 Ethiopic syllable szi
001223 Ethiopic syllable szaa
001224 Ethiopic syllable szee
001225 Ethiopic syllable sze
001226 Ethiopic syllable szo
001227 Ethiopic syllable szwa
001228 Ethiopic syllable ra
001229 Ethiopic syllable ru
00122A Ethiopic syllable ri
00122B Ethiopic syllable raa
00122C Ethiopic syllable ree
00122D Ethiopic syllable re
00122E Ethiopic syllable ro
00122F Ethiopic syllable rwa
001230 Ethiopic syllable sa
001231 Ethiopic syllable su
001232 Ethiopic syllable si
001233 Ethiopic syllable saa
001234 Ethiopic syllable see
001235 Ethiopic syllable se
001236 Ethiopic syllable so
001237 Ethiopic syllable swa
001238 Ethiopic syllable sha
001239 Ethiopic syllable shu
00123A Ethiopic syllable shi
00123B Ethiopic syllable shaa
00123C Ethiopic syllable shee
00123D Ethiopic syllable she
00123E Ethiopic syllable sho
00123F Ethiopic syllable shwa
001240 Ethiopic syllable qa
001241 Ethiopic syllable qu
001242 Ethiopic syllable qi
001243 Ethiopic syllable qaa
001244 Ethiopic syllable qee
001245 Ethiopic syllable qe
001246 Ethiopic syllable qo
001247 Ethiopic syllable qoa
001248 Ethiopic syllable qwa
00124A Ethiopic syllable qwi
00124B Ethiopic syllable qwaa
00124C Ethiopic syllable qwee
00124D Ethiopic syllable qwe
001250 Ethiopic syllable qha
001251 Ethiopic syllable qhu
001252 Ethiopic syllable qhi
001253 Ethiopic syllable qhaa
001254 Ethiopic syllable qhee
001255 Ethiopic syllable qhe
001256 Ethiopic syllable qho
001258 Ethiopic syllable qhwa
00125A Ethiopic syllable qhwi
00125B Ethiopic syllable qhwaa
00125C Ethiopic syllable qhwee
00125D Ethiopic syllable qhwe
001260 Ethiopic syllable ba
001261 Ethiopic syllable bu
001262 Ethiopic syllable bi
001263 Ethiopic syllable baa
001264 Ethiopic syllable bee
001265 Ethiopic syllable be
001266 Ethiopic syllable bo
001267 Ethiopic syllable bwa
001268 Ethiopic syllable va
001269 Ethiopic syllable vu
00126A Ethiopic syllable vi
00126B Ethiopic syllable vaa
00126C Ethiopic syllable vee
00126D Ethiopic syllable ve
00126E Ethiopic syllable vo
00126F Ethiopic syllable vwa
001270 Ethiopic syllable ta
001271 Ethiopic syllable tu
001272 Ethiopic syllable ti
001273 Ethiopic syllable taa
001274 Ethiopic syllable tee
001275 Ethiopic syllable te
001276 Ethiopic syllable to
001277 Ethiopic syllable twa
001278 Ethiopic syllable ca
001279 Ethiopic syllable cu
00127A Ethiopic syllable ci
00127B Ethiopic syllable caa
00127C Ethiopic syllable cee
00127D Ethiopic syllable ce
00127E Ethiopic syllable co
00127F Ethiopic syllable cwa
001280 Ethiopic syllable xa
001281 Ethiopic syllable xu
001282 Ethiopic syllable xi
001283 Ethiopic syllable xaa
001284 Ethiopic syllable xee
001285 Ethiopic syllable xe
001286 Ethiopic syllable xo
001287 Ethiopic syllable xoa
001288 Ethiopic syllable xwa
00128A Ethiopic syllable xwi
00128B Ethiopic syllable xwaa
00128C Ethiopic syllable xwee
00128D Ethiopic syllable xwe
001290 Ethiopic syllable na
001291 Ethiopic syllable nu
001292 Ethiopic syllable ni
001293 Ethiopic syllable naa
001294 Ethiopic syllable nee
001295 Ethiopic syllable ne
001296 Ethiopic syllable no
001297 Ethiopic syllable nwa
001298 Ethiopic syllable nya
001299 Ethiopic syllable nyu
00129A Ethiopic syllable nyi
00129B Ethiopic syllable nyaa
00129C Ethiopic syllable nyee
00129D Ethiopic syllable nye
00129E Ethiopic syllable nyo
00129F Ethiopic syllable nywa
0012A0 Ethiopic syllable glottal a
0012A1 Ethiopic syllable glottal u
0012A2 Ethiopic syllable glottal i
0012A3 Ethiopic syllable glottal aa
0012A4 Ethiopic syllable glottal ee
0012A5 Ethiopic syllable glottal e
0012A6 Ethiopic syllable glottal o
0012A7 Ethiopic syllable glottal wa
0012A8 Ethiopic syllable ka
0012A9 Ethiopic syllable ku
0012AA Ethiopic syllable ki
0012AB Ethiopic syllable kaa
0012AC Ethiopic syllable kee
0012AD Ethiopic syllable ke
0012AE Ethiopic syllable ko
0012AF Ethiopic syllable koa
0012B0 Ethiopic syllable kwa
0012B2 Ethiopic syllable kwi
0012B3 Ethiopic syllable kwaa
0012B4 Ethiopic syllable kwee
0012B5 Ethiopic syllable kwe
0012B8 Ethiopic syllable kxa
0012B9 Ethiopic syllable kxu
0012BA Ethiopic syllable kxi
0012BB Ethiopic syllable kxaa
0012BC Ethiopic syllable kxee
0012BD Ethiopic syllable kxe
0012BE Ethiopic syllable kxo
0012C0 Ethiopic syllable kxwa
0012C2 Ethiopic syllable kxwi
";

pub const NAMES_10: &'static str = "0012C3 Ethiopic syllable kxwaa
0012C4 Ethiopic syllable kxwee
0012C5 Ethiopic syllable kxwe
0012C8 Ethiopic syllable wa
0012C9 Ethiopic syllable wu
0012CA Ethiopic syllable wi
0012CB Ethiopic syllable waa
0012CC Ethiopic syllable wee
0012CD Ethiopic syllable we
0012CE Ethiopic syllable wo
0012CF Ethiopic syllable woa
0012D0 Ethiopic syllable pharyngeal a
0012D1 Ethiopic syllable pharyngeal u
0012D2 Ethiopic syllable pharyngeal i
0012D3 Ethiopic syllable pharyngeal aa
0012D4 Ethiopic syllable pharyngeal ee
0012D5 Ethiopic syllable pharyngeal e
0012D6 Ethiopic syllable pharyngeal o
0012D8 Ethiopic syllable za
0012D9 Ethiopic syllable zu
0012DA Ethiopic syllable zi
0012DB Ethiopic syllable zaa
0012DC Ethiopic syllable zee
0012DD Ethiopic syllable ze
0012DE Ethiopic syllable zo
0012DF Ethiopic syllable zwa
0012E0 Ethiopic syllable zha
0012E1 Ethiopic syllable zhu
0012E2 Ethiopic syllable zhi
0012E3 Ethiopic syllable zhaa
0012E4 Ethiopic syllable zhee
0012E5 Ethiopic syllable zhe
0012E6 Ethiopic syllable zho
0012E7 Ethiopic syllable zhwa
0012E8 Ethiopic syllable ya
0012E9 Ethiopic syllable yu
0012EA Ethiopic syllable yi
0012EB Ethiopic syllable yaa
0012EC Ethiopic syllable yee
0012ED Ethiopic syllable ye
0012EE Ethiopic syllable yo
0012EF Ethiopic syllable yoa
0012F0 Ethiopic syllable da
0012F1 Ethiopic syllable du
0012F2 Ethiopic syllable di
0012F3 Ethiopic syllable daa
0012F4 Ethiopic syllable dee
0012F5 Ethiopic syllable de
0012F6 Ethiopic syllable do
0012F7 Ethiopic syllable dwa
0012F8 Ethiopic syllable dda
0012F9 Ethiopic syllable ddu
0012FA Ethiopic syllable ddi
0012FB Ethiopic syllable ddaa
0012FC Ethiopic syllable ddee
0012FD Ethiopic syllable dde
0012FE Ethiopic syllable ddo
0012FF Ethiopic syllable ddwa
001300 Ethiopic syllable ja
001301 Ethiopic syllable ju
001302 Ethiopic syllable ji
001303 Ethiopic syllable jaa
001304 Ethiopic syllable jee
001305 Ethiopic syllable je
001306 Ethiopic syllable jo
001307 Ethiopic syllable jwa
001308 Ethiopic syllable ga
001309 Ethiopic syllable gu
00130A Ethiopic syllable gi
00130B Ethiopic syllable gaa
00130C Ethiopic syllable gee
00130D Ethiopic syllable ge
00130E Ethiopic syllable go
00130F Ethiopic syllable goa
001310 Ethiopic syllable gwa
001312 Ethiopic syllable gwi
001313 Ethiopic syllable gwaa
001314 Ethiopic syllable gwee
001315 Ethiopic syllable gwe
001318 Ethiopic syllable gga
001319 Ethiopic syllable ggu
00131A Ethiopic syllable ggi
00131B Ethiopic syllable ggaa
00131C Ethiopic syllable ggee
00131D Ethiopic syllable gge
00131E Ethiopic syllable ggo
00131F Ethiopic syllable ggwaa
001320 Ethiopic syllable tha
001321 Ethiopic syllable thu
001322 Ethiopic syllable thi
001323 Ethiopic syllable thaa
001324 Ethiopic syllable thee
001325 Ethiopic syllable the
001326 Ethiopic syllable tho
001327 Ethiopic syllable thwa
001328 Ethiopic syllable cha
001329 Ethiopic syllable chu
00132A Ethiopic syllable chi
00132B Ethiopic syllable chaa
00132C Ethiopic syllable chee
00132D Ethiopic syllable che
00132E Ethiopic syllable cho
00132F Ethiopic syllable chwa
001330 Ethiopic syllable pha
001331 Ethiopic syllable phu
001332 Ethiopic syllable phi
001333 Ethiopic syllable phaa
001334 Ethiopic syllable phee
001335 Ethiopic syllable phe
001336 Ethiopic syllable pho
001337 Ethiopic syllable phwa
001338 Ethiopic syllable tsa
001339 Ethiopic syllable tsu
00133A Ethiopic syllable tsi
00133B Ethiopic syllable tsaa
00133C Ethiopic syllable tsee
00133D Ethiopic syllable tse
00133E Ethiopic syllable tso
00133F Ethiopic syllable tswa
001340 Ethiopic syllable tza
001341 Ethiopic syllable tzu
001342 Ethiopic syllable tzi
001343 Ethiopic syllable tzaa
001344 Ethiopic syllable tzee
001345 Ethiopic syllable tze
001346 Ethiopic syllable tzo
001347 Ethiopic syllable tzoa
001348 Ethiopic syllable fa
001349 Ethiopic syllable fu
00134A Ethiopic syllable fi
00134B Ethiopic syllable faa
00134C Ethiopic syllable fee
00134D Ethiopic syllable fe
00134E Ethiopic syllable fo
00134F Ethiopic syllable fwa
001350 Ethiopic syllable pa
001351 Ethiopic syllable pu
001352 Ethiopic syllable pi
001353 Ethiopic syllable paa
001354 Ethiopic syllable pee
001355 Ethiopic syllable pe
001356 Ethiopic syllable po
001357 Ethiopic syllable pwa
001358 Ethiopic syllable rya
001359 Ethiopic syllable mya
00135A Ethiopic syllable fya
00135D Ethiopic combining gemination and vowel length mark
00135E Ethiopic combining vowel length mark
00135F Ethiopic combining gemination mark
001360 Ethiopic section mark
001361 Ethiopic wordspace
001362 Ethiopic full stop
001363 Ethiopic comma
001364 Ethiopic semicolon
001365 Ethiopic colon
001366 Ethiopic preface colon
001367 Ethiopic question mark
001368 Ethiopic paragraph separator
001369 Ethiopic digit one
00136A Ethiopic digit two
00136B Ethiopic digit three
00136C Ethiopic digit four
00136D Ethiopic digit five
00136E Ethiopic digit six
00136F Ethiopic digit seven
001370 Ethiopic digit eight
001371 Ethiopic digit nine
001372 Ethiopic number ten
001373 Ethiopic number twenty
001374 Ethiopic number thirty
001375 Ethiopic number forty
001376 Ethiopic number fifty
001377 Ethiopic number sixty
001378 Ethiopic number seventy
001379 Ethiopic number eighty
00137A Ethiopic number ninety
00137B Ethiopic number hundred
00137C Ethiopic number ten thousand
001380 Ethiopic syllable sebatbeit mwa
001381 Ethiopic syllable mwi
001382 Ethiopic syllable mwee
001383 Ethiopic syllable mwe
001384 Ethiopic syllable sebatbeit bwa
001385 Ethiopic syllable bwi
001386 Ethiopic syllable bwee
001387 Ethiopic syllable bwe
001388 Ethiopic syllable sebatbeit fwa
001389 Ethiopic syllable fwi
00138A Ethiopic syllable fwee
00138B Ethiopic syllable fwe
00138C Ethiopic syllable sebatbeit pwa
00138D Ethiopic syllable pwi
00138E Ethiopic syllable pwee
00138F Ethiopic syllable pwe
001390 Ethiopic tonal mark yizet
001391 Ethiopic tonal mark deret
001392 Ethiopic tonal mark rikrik
001393 Ethiopic tonal mark short rikrik
001394 Ethiopic tonal mark difat
001395 Ethiopic tonal mark kenat
001396 Ethiopic tonal mark chiret
001397 Ethiopic tonal mark hidet
001398 Ethiopic tonal mark deret-hidet
001399 Ethiopic tonal mark kurt
0013A0 Cherokee letter a
0013A1 Cherokee letter e
0013A2 Cherokee letter i
0013A3 Cherokee letter o
0013A4 Cherokee letter u
0013A5 Cherokee letter v
0013A6 Cherokee letter ga
0013A7 Cherokee letter ka
0013A8 Cherokee letter ge
0013A9 Cherokee letter gi
0013AA Cherokee letter go
0013AB Cherokee letter gu
0013AC Cherokee letter gv
0013AD Cherokee letter ha
0013AE Cherokee letter he
0013AF Cherokee letter hi
0013B0 Cherokee letter ho
0013B1 Cherokee letter hu
0013B2 Cherokee letter hv
0013B3 Cherokee letter la
0013B4 Cherokee letter le
0013B5 Cherokee letter li
0013B6 Cherokee letter lo
0013B7 Cherokee letter lu
0013B8 Cherokee letter lv
0013B9 Cherokee letter ma
0013BA Cherokee letter me
0013BB Cherokee letter mi
0013BC Cherokee letter mo
0013BD Cherokee letter mu
0013BE Cherokee letter na
0013BF Cherokee letter hna
0013C0 Cherokee letter nah
0013C1 Cherokee letter ne
0013C2 Cherokee letter ni
0013C3 Cherokee letter no
0013C4 Cherokee letter nu
0013C5 Cherokee letter nv
0013C6 Cherokee letter qua
0013C7 Cherokee letter que
0013C8 Cherokee letter qui
0013C9 Cherokee letter quo
0013CA Cherokee letter quu
0013CB Cherokee letter quv
0013CC Cherokee letter sa
0013CD Cherokee letter s
0013CE Cherokee letter se
0013CF Cherokee letter si
0013D0 Cherokee letter so
0013D1 Cherokee letter su
0013D2 Cherokee letter sv
0013D3 Cherokee letter da
0013D4 Cherokee letter ta
0013D5 Cherokee letter de
0013D6 Cherokee letter te
0013D7 Cherokee letter di
0013D8 Cherokee letter ti
0013D9 Cherokee letter do
0013DA Cherokee letter du
0013DB Cherokee letter dv
0013DC Cherokee letter dla
0013DD Cherokee letter tla
0013DE Cherokee letter tle
0013DF Cherokee letter tli
0013E0 Cherokee letter tlo
0013E1 Cherokee letter tlu
0013E2 Cherokee letter tlv
0013E3 Cherokee letter tsa
0013E4 Cherokee letter tse
0013E5 Cherokee letter tsi
0013E6 Cherokee letter tso
0013E7 Cherokee letter tsu
0013E8 Cherokee letter tsv
0013E9 Cherokee letter wa
0013EA Cherokee letter we
0013EB Cherokee letter wi
0013EC Cherokee letter wo
0013ED Cherokee letter wu
0013EE Cherokee letter wv
0013EF Cherokee letter ya
0013F0 Cherokee letter ye
0013F1 Cherokee letter yi
0013F2 Cherokee letter yo
0013F3 Cherokee letter yu
0013F4 Cherokee letter yv
0013F5 Cherokee letter mv
0013F8 Cherokee small letter ye
0013F9 Cherokee small letter yi
0013FA Cherokee small letter yo
0013FB Cherokee small letter yu
0013FC Cherokee small letter yv
0013FD Cherokee small letter mv
001400 Canadian syllabics hyphen
001401 Canadian syllabics e
001402 Canadian syllabics aai
001403 Canadian syllabics i
001404 Canadian syllabics ii
001405 Canadian syllabics o
001406 Canadian syllabics oo
001407 Canadian syllabics y-cree oo
001408 Canadian syllabics carrier ee
001409 Canadian syllabics carrier i
00140A Canadian syllabics a
00140B Canadian syllabics aa
00140C Canadian syllabics we
00140D Canadian syllabics west-cree we
00140E Canadian syllabics wi
00140F Canadian syllabics west-cree wi
001410 Canadian syllabics wii
001411 Canadian syllabics west-cree wii
001412 Canadian syllabics wo
001413 Canadian syllabics west-cree wo
001414 Canadian syllabics woo
001415 Canadian syllabics west-cree woo
001416 Canadian syllabics naskapi woo
001417 Canadian syllabics wa
001418 Canadian syllabics west-cree wa
001419 Canadian syllabics waa
00141A Canadian syllabics west-cree waa
00141B Canadian syllabics naskapi waa
00141C Canadian syllabics ai
00141D Canadian syllabics y-cree w
00141E Canadian syllabics glottal stop
00141F Canadian syllabics final acute
001420 Canadian syllabics final grave
001421 Canadian syllabics final bottom half ring
001422 Canadian syllabics final top half ring
001423 Canadian syllabics final right half ring
001424 Canadian syllabics final ring
001425 Canadian syllabics final double acute
001426 Canadian syllabics final double short vertical strokes
001427 Canadian syllabics final middle dot
001428 Canadian syllabics final short horizontal stroke
001429 Canadian syllabics final plus
00142A Canadian syllabics final down tack
00142B Canadian syllabics en
00142C Canadian syllabics in
00142D Canadian syllabics on
00142E Canadian syllabics an
00142F Canadian syllabics pe
001430 Canadian syllabics paai
001431 Canadian syllabics pi
001432 Canadian syllabics pii
001433 Canadian syllabics po
001434 Canadian syllabics poo
001435 Canadian syllabics y-cree poo
001436 Canadian syllabics carrier hee
001437 Canadian syllabics carrier hi
001438 Canadian syllabics pa
001439 Canadian syllabics paa
00143A Canadian syllabics pwe
00143B Canadian syllabics west-cree pwe
00143C Canadian syllabics pwi
00143D Canadian syllabics west-cree pwi
00143E Canadian syllabics pwii
00143F Canadian syllabics west-cree pwii
001440 Canadian syllabics pwo
001441 Canadian syllabics west-cree pwo
001442 Canadian syllabics pwoo
001443 Canadian syllabics west-cree pwoo
001444 Canadian syllabics pwa
001445 Canadian syllabics west-cree pwa
001446 Canadian syllabics pwaa
001447 Canadian syllabics west-cree pwaa
001448 Canadian syllabics y-cree pwaa
001449 Canadian syllabics p
00144A Canadian syllabics west-cree p
00144B Canadian syllabics carrier h
00144C Canadian syllabics te
00144D Canadian syllabics taai
00144E Canadian syllabics ti
00144F Canadian syllabics tii
001450 Canadian syllabics to
001451 Canadian syllabics too
001452 Canadian syllabics y-cree too
001453 Canadian syllabics carrier dee
001454 Canadian syllabics carrier di
001455 Canadian syllabics ta
001456 Canadian syllabics taa
001457 Canadian syllabics twe
001458 Canadian syllabics west-cree twe
001459 Canadian syllabics twi
00145A Canadian syllabics west-cree twi
00145B Canadian syllabics twii
00145C Canadian syllabics west-cree twii
00145D Canadian syllabics two
00145E Canadian syllabics west-cree two
00145F Canadian syllabics twoo
001460 Canadian syllabics west-cree twoo
001461 Canadian syllabics twa
001462 Canadian syllabics west-cree twa
001463 Canadian syllabics twaa
001464 Canadian syllabics west-cree twaa
001465 Canadian syllabics naskapi twaa
001466 Canadian syllabics t
001467 Canadian syllabics tte
001468 Canadian syllabics tti
001469 Canadian syllabics tto
00146A Canadian syllabics tta
00146B Canadian syllabics ke
00146C Canadian syllabics kaai
00146D Canadian syllabics ki
00146E Canadian syllabics kii
00146F Canadian syllabics ko
001470 Canadian syllabics koo
001471 Canadian syllabics y-cree koo
001472 Canadian syllabics ka
001473 Canadian syllabics kaa
001474 Canadian syllabics kwe
001475 Canadian syllabics west-cree kwe
001476 Canadian syllabics kwi
001477 Canadian syllabics west-cree kwi
001478 Canadian syllabics kwii
001479 Canadian syllabics west-cree kwii
00147A Canadian syllabics kwo
00147B Canadian syllabics west-cree kwo
00147C Canadian syllabics kwoo
00147D Canadian syllabics west-cree kwoo
00147E Canadian syllabics kwa
00147F Canadian syllabics west-cree kwa
001480 Canadian syllabics kwaa
001481 Canadian syllabics west-cree kwaa
001482 Canadian syllabics naskapi kwaa
001483 Canadian syllabics k
001484 Canadian syllabics kw
001485 Canadian syllabics south-slavey keh
001486 Canadian syllabics south-slavey kih
001487 Canadian syllabics south-slavey koh
001488 Canadian syllabics south-slavey kah
001489 Canadian syllabics ce
00148A Canadian syllabics caai
00148B Canadian syllabics ci
00148C Canadian syllabics cii
00148D Canadian syllabics co
00148E Canadian syllabics coo
00148F Canadian syllabics y-cree coo
001490 Canadian syllabics ca
001491 Canadian syllabics caa
001492 Canadian syllabics cwe
001493 Canadian syllabics west-cree cwe
001494 Canadian syllabics cwi
001495 Canadian syllabics west-cree cwi
001496 Canadian syllabics cwii
001497 Canadian syllabics west-cree cwii
001498 Canadian syllabics cwo
001499 Canadian syllabics west-cree cwo
00149A Canadian syllabics cwoo
00149B Canadian syllabics west-cree cwoo
00149C Canadian syllabics cwa
00149D Canadian syllabics west-cree cwa
";

pub const NAMES_11: &'static str = "00149E Canadian syllabics cwaa
00149F Canadian syllabics west-cree cwaa
0014A0 Canadian syllabics naskapi cwaa
0014A1 Canadian syllabics c
0014A2 Canadian syllabics sayisi th
0014A3 Canadian syllabics me
0014A4 Canadian syllabics maai
0014A5 Canadian syllabics mi
0014A6 Canadian syllabics mii
0014A7 Canadian syllabics mo
0014A8 Canadian syllabics moo
0014A9 Canadian syllabics y-cree moo
0014AA Canadian syllabics ma
0014AB Canadian syllabics maa
0014AC Canadian syllabics mwe
0014AD Canadian syllabics west-cree mwe
0014AE Canadian syllabics mwi
0014AF Canadian syllabics west-cree mwi
0014B0 Canadian syllabics mwii
0014B1 Canadian syllabics west-cree mwii
0014B2 Canadian syllabics mwo
0014B3 Canadian syllabics west-cree mwo
0014B4 Canadian syllabics mwoo
0014B5 Canadian syllabics west-cree mwoo
0014B6 Canadian syllabics mwa
0014B7 Canadian syllabics west-cree mwa
0014B8 Canadian syllabics mwaa
0014B9 Canadian syllabics west-cree mwaa
0014BA Canadian syllabics naskapi mwaa
0014BB Canadian syllabics m
0014BC Canadian syllabics west-cree m
0014BD Canadian syllabics mh
0014BE Canadian syllabics athapascan m
0014BF Canadian syllabics sayisi m
0014C0 Canadian syllabics ne
0014C1 Canadian syllabics naai
0014C2 Canadian syllabics ni
0014C3 Canadian syllabics nii
0014C4 Canadian syllabics no
0014C5 Canadian syllabics noo
0014C6 Canadian syllabics y-cree noo
0014C7 Canadian syllabics na
0014C8 Canadian syllabics naa
0014C9 Canadian syllabics nwe
0014CA Canadian syllabics west-cree nwe
0014CB Canadian syllabics nwa
0014CC Canadian syllabics west-cree nwa
0014CD Canadian syllabics nwaa
0014CE Canadian syllabics west-cree nwaa
0014CF Canadian syllabics naskapi nwaa
0014D0 Canadian syllabics n
0014D1 Canadian syllabics carrier ng
0014D2 Canadian syllabics nh
0014D3 Canadian syllabics le
0014D4 Canadian syllabics laai
0014D5 Canadian syllabics li
0014D6 Canadian syllabics lii
0014D7 Canadian syllabics lo
0014D8 Canadian syllabics loo
0014D9 Canadian syllabics y-cree loo
0014DA Canadian syllabics la
0014DB Canadian syllabics laa
0014DC Canadian syllabics lwe
0014DD Canadian syllabics west-cree lwe
0014DE Canadian syllabics lwi
0014DF Canadian syllabics west-cree lwi
0014E0 Canadian syllabics lwii
0014E1 Canadian syllabics west-cree lwii
0014E2 Canadian syllabics lwo
0014E3 Canadian syllabics west-cree lwo
0014E4 Canadian syllabics lwoo
0014E5 Canadian syllabics west-cree lwoo
0014E6 Canadian syllabics lwa
0014E7 Canadian syllabics west-cree lwa
0014E8 Canadian syllabics lwaa
0014E9 Canadian syllabics west-cree lwaa
0014EA Canadian syllabics l
0014EB Canadian syllabics west-cree l
0014EC Canadian syllabics medial l
0014ED Canadian syllabics se
0014EE Canadian syllabics saai
0014EF Canadian syllabics si
0014F0 Canadian syllabics sii
0014F1 Canadian syllabics so
0014F2 Canadian syllabics soo
0014F3 Canadian syllabics y-cree soo
0014F4 Canadian syllabics sa
0014F5 Canadian syllabics saa
0014F6 Canadian syllabics swe
0014F7 Canadian syllabics west-cree swe
0014F8 Canadian syllabics swi
0014F9 Canadian syllabics west-cree swi
0014FA Canadian syllabics swii
0014FB Canadian syllabics west-cree swii
0014FC Canadian syllabics swo
0014FD Canadian syllabics west-cree swo
0014FE Canadian syllabics swoo
0014FF Canadian syllabics west-cree swoo
001500 Canadian syllabics swa
001501 Canadian syllabics west-cree swa
001502 Canadian syllabics swaa
001503 Canadian syllabics west-cree swaa
001504 Canadian syllabics naskapi swaa
001505 Canadian syllabics s
001506 Canadian syllabics athapascan s
001507 Canadian syllabics sw
001508 Canadian syllabics blackfoot s
001509 Canadian syllabics moose-cree sk
00150A Canadian syllabics naskapi skw
00150B Canadian syllabics naskapi s-w
00150C Canadian syllabics naskapi spwa
00150D Canadian syllabics naskapi stwa
00150E Canadian syllabics naskapi skwa
00150F Canadian syllabics naskapi scwa
001510 Canadian syllabics she
001511 Canadian syllabics shi
001512 Canadian syllabics shii
001513 Canadian syllabics sho
001514 Canadian syllabics shoo
001515 Canadian syllabics sha
001516 Canadian syllabics shaa
001517 Canadian syllabics shwe
001518 Canadian syllabics west-cree shwe
001519 Canadian syllabics shwi
00151A Canadian syllabics west-cree shwi
00151B Canadian syllabics shwii
00151C Canadian syllabics west-cree shwii
00151D Canadian syllabics shwo
00151E Canadian syllabics west-cree shwo
00151F Canadian syllabics shwoo
001520 Canadian syllabics west-cree shwoo
001521 Canadian syllabics shwa
001522 Canadian syllabics west-cree shwa
001523 Canadian syllabics shwaa
001524 Canadian syllabics west-cree shwaa
001525 Canadian syllabics sh
001526 Canadian syllabics ye
001527 Canadian syllabics yaai
001528 Canadian syllabics yi
001529 Canadian syllabics yii
00152A Canadian syllabics yo
00152B Canadian syllabics yoo
00152C Canadian syllabics y-cree yoo
00152D Canadian syllabics ya
00152E Canadian syllabics yaa
00152F Canadian syllabics ywe
001530 Canadian syllabics west-cree ywe
001531 Canadian syllabics ywi
001532 Canadian syllabics west-cree ywi
001533 Canadian syllabics ywii
001534 Canadian syllabics west-cree ywii
001535 Canadian syllabics ywo
001536 Canadian syllabics west-cree ywo
001537 Canadian syllabics ywoo
001538 Canadian syllabics west-cree ywoo
001539 Canadian syllabics ywa
00153A Canadian syllabics west-cree ywa
00153B Canadian syllabics ywaa
00153C Canadian syllabics west-cree ywaa
00153D Canadian syllabics naskapi ywaa
00153E Canadian syllabics y
00153F Canadian syllabics bible-cree y
001540 Canadian syllabics west-cree y
001541 Canadian syllabics sayisi yi
001542 Canadian syllabics re
001543 Canadian syllabics r-cree re
001544 Canadian syllabics west-cree le
001545 Canadian syllabics raai
001546 Canadian syllabics ri
001547 Canadian syllabics rii
001548 Canadian syllabics ro
001549 Canadian syllabics roo
00154A Canadian syllabics west-cree lo
00154B Canadian syllabics ra
00154C Canadian syllabics raa
00154D Canadian syllabics west-cree la
00154E Canadian syllabics rwaa
00154F Canadian syllabics west-cree rwaa
001550 Canadian syllabics r
001551 Canadian syllabics west-cree r
001552 Canadian syllabics medial r
001553 Canadian syllabics fe
001554 Canadian syllabics faai
001555 Canadian syllabics fi
001556 Canadian syllabics fii
001557 Canadian syllabics fo
001558 Canadian syllabics foo
001559 Canadian syllabics fa
00155A Canadian syllabics faa
00155B Canadian syllabics fwaa
00155C Canadian syllabics west-cree fwaa
00155D Canadian syllabics f
00155E Canadian syllabics the
00155F Canadian syllabics n-cree the
001560 Canadian syllabics thi
001561 Canadian syllabics n-cree thi
001562 Canadian syllabics thii
001563 Canadian syllabics n-cree thii
001564 Canadian syllabics tho
001565 Canadian syllabics thoo
001566 Canadian syllabics tha
001567 Canadian syllabics thaa
001568 Canadian syllabics thwaa
001569 Canadian syllabics west-cree thwaa
00156A Canadian syllabics th
00156B Canadian syllabics tthe
00156C Canadian syllabics tthi
00156D Canadian syllabics ttho
00156E Canadian syllabics ttha
00156F Canadian syllabics tth
001570 Canadian syllabics tye
001571 Canadian syllabics tyi
001572 Canadian syllabics tyo
001573 Canadian syllabics tya
001574 Canadian syllabics nunavik he
001575 Canadian syllabics nunavik hi
001576 Canadian syllabics nunavik hii
001577 Canadian syllabics nunavik ho
001578 Canadian syllabics nunavik hoo
001579 Canadian syllabics nunavik ha
00157A Canadian syllabics nunavik haa
00157B Canadian syllabics nunavik h
00157C Canadian syllabics nunavut h
00157D Canadian syllabics hk
00157E Canadian syllabics qaai
00157F Canadian syllabics qi
001580 Canadian syllabics qii
001581 Canadian syllabics qo
001582 Canadian syllabics qoo
001583 Canadian syllabics qa
001584 Canadian syllabics qaa
001585 Canadian syllabics q
001586 Canadian syllabics tlhe
001587 Canadian syllabics tlhi
001588 Canadian syllabics tlho
001589 Canadian syllabics tlha
00158A Canadian syllabics west-cree re
00158B Canadian syllabics west-cree ri
00158C Canadian syllabics west-cree ro
00158D Canadian syllabics west-cree ra
00158E Canadian syllabics ngaai
00158F Canadian syllabics ngi
001590 Canadian syllabics ngii
001591 Canadian syllabics ngo
001592 Canadian syllabics ngoo
001593 Canadian syllabics nga
001594 Canadian syllabics ngaa
001595 Canadian syllabics ng
001596 Canadian syllabics nng
001597 Canadian syllabics sayisi she
001598 Canadian syllabics sayisi shi
001599 Canadian syllabics sayisi sho
00159A Canadian syllabics sayisi sha
00159B Canadian syllabics woods-cree the
00159C Canadian syllabics woods-cree thi
00159D Canadian syllabics woods-cree tho
00159E Canadian syllabics woods-cree tha
00159F Canadian syllabics woods-cree th
0015A0 Canadian syllabics lhi
0015A1 Canadian syllabics lhii
0015A2 Canadian syllabics lho
0015A3 Canadian syllabics lhoo
0015A4 Canadian syllabics lha
0015A5 Canadian syllabics lhaa
0015A6 Canadian syllabics lh
0015A7 Canadian syllabics th-cree the
0015A8 Canadian syllabics th-cree thi
0015A9 Canadian syllabics th-cree thii
0015AA Canadian syllabics th-cree tho
0015AB Canadian syllabics th-cree thoo
0015AC Canadian syllabics th-cree tha
0015AD Canadian syllabics th-cree thaa
0015AE Canadian syllabics th-cree th
0015AF Canadian syllabics aivilik b
0015B0 Canadian syllabics blackfoot e
0015B1 Canadian syllabics blackfoot i
0015B2 Canadian syllabics blackfoot o
0015B3 Canadian syllabics blackfoot a
0015B4 Canadian syllabics blackfoot we
0015B5 Canadian syllabics blackfoot wi
0015B6 Canadian syllabics blackfoot wo
0015B7 Canadian syllabics blackfoot wa
0015B8 Canadian syllabics blackfoot ne
0015B9 Canadian syllabics blackfoot ni
0015BA Canadian syllabics blackfoot no
0015BB Canadian syllabics blackfoot na
0015BC Canadian syllabics blackfoot ke
0015BD Canadian syllabics blackfoot ki
0015BE Canadian syllabics blackfoot ko
0015BF Canadian syllabics blackfoot ka
0015C0 Canadian syllabics sayisi he
0015C1 Canadian syllabics sayisi hi
0015C2 Canadian syllabics sayisi ho
0015C3 Canadian syllabics sayisi ha
0015C4 Canadian syllabics carrier ghu
0015C5 Canadian syllabics carrier gho
0015C6 Canadian syllabics carrier ghe
0015C7 Canadian syllabics carrier ghee
0015C8 Canadian syllabics carrier ghi
0015C9 Canadian syllabics carrier gha
0015CA Canadian syllabics carrier ru
0015CB Canadian syllabics carrier ro
0015CC Canadian syllabics carrier re
0015CD Canadian syllabics carrier ree
0015CE Canadian syllabics carrier ri
0015CF Canadian syllabics carrier ra
0015D0 Canadian syllabics carrier wu
0015D1 Canadian syllabics carrier wo
0015D2 Canadian syllabics carrier we
0015D3 Canadian syllabics carrier wee
0015D4 Canadian syllabics carrier wi
0015D5 Canadian syllabics carrier wa
0015D6 Canadian syllabics carrier hwu
0015D7 Canadian syllabics carrier hwo
0015D8 Canadian syllabics carrier hwe
0015D9 Canadian syllabics carrier hwee
0015DA Canadian syllabics carrier hwi
0015DB Canadian syllabics carrier hwa
0015DC Canadian syllabics carrier thu
0015DD Canadian syllabics carrier tho
0015DE Canadian syllabics carrier the
0015DF Canadian syllabics carrier thee
0015E0 Canadian syllabics carrier thi
0015E1 Canadian syllabics carrier tha
0015E2 Canadian syllabics carrier ttu
0015E3 Canadian syllabics carrier tto
0015E4 Canadian syllabics carrier tte
0015E5 Canadian syllabics carrier ttee
0015E6 Canadian syllabics carrier tti
0015E7 Canadian syllabics carrier tta
0015E8 Canadian syllabics carrier pu
0015E9 Canadian syllabics carrier po
0015EA Canadian syllabics carrier pe
0015EB Canadian syllabics carrier pee
0015EC Canadian syllabics carrier pi
0015ED Canadian syllabics carrier pa
0015EE Canadian syllabics carrier p
0015EF Canadian syllabics carrier gu
0015F0 Canadian syllabics carrier go
0015F1 Canadian syllabics carrier ge
0015F2 Canadian syllabics carrier gee
0015F3 Canadian syllabics carrier gi
0015F4 Canadian syllabics carrier ga
0015F5 Canadian syllabics carrier khu
0015F6 Canadian syllabics carrier kho
0015F7 Canadian syllabics carrier khe
0015F8 Canadian syllabics carrier khee
0015F9 Canadian syllabics carrier khi
0015FA Canadian syllabics carrier kha
0015FB Canadian syllabics carrier kku
0015FC Canadian syllabics carrier kko
0015FD Canadian syllabics carrier kke
0015FE Canadian syllabics carrier kkee
0015FF Canadian syllabics carrier kki
001600 Canadian syllabics carrier kka
001601 Canadian syllabics carrier kk
001602 Canadian syllabics carrier nu
001603 Canadian syllabics carrier no
001604 Canadian syllabics carrier ne
001605 Canadian syllabics carrier nee
001606 Canadian syllabics carrier ni
001607 Canadian syllabics carrier na
001608 Canadian syllabics carrier mu
001609 Canadian syllabics carrier mo
00160A Canadian syllabics carrier me
00160B Canadian syllabics carrier mee
00160C Canadian syllabics carrier mi
00160D Canadian syllabics carrier ma
00160E Canadian syllabics carrier yu
00160F Canadian syllabics carrier yo
001610 Canadian syllabics carrier ye
001611 Canadian syllabics carrier yee
001612 Canadian syllabics carrier yi
001613 Canadian syllabics carrier ya
001614 Canadian syllabics carrier ju
001615 Canadian syllabics sayisi ju
001616 Canadian syllabics carrier jo
001617 Canadian syllabics carrier je
001618 Canadian syllabics carrier jee
001619 Canadian syllabics carrier ji
00161A Canadian syllabics sayisi ji
00161B Canadian syllabics carrier ja
00161C Canadian syllabics carrier jju
00161D Canadian syllabics carrier jjo
00161E Canadian syllabics carrier jje
00161F Canadian syllabics carrier jjee
001620 Canadian syllabics carrier jji
001621 Canadian syllabics carrier jja
001622 Canadian syllabics carrier lu
001623 Canadian syllabics carrier lo
001624 Canadian syllabics carrier le
001625 Canadian syllabics carrier lee
001626 Canadian syllabics carrier li
001627 Canadian syllabics carrier la
001628 Canadian syllabics carrier dlu
001629 Canadian syllabics carrier dlo
00162A Canadian syllabics carrier dle
00162B Canadian syllabics carrier dlee
00162C Canadian syllabics carrier dli
00162D Canadian syllabics carrier dla
";

pub const NAMES_12: &'static str = "00162E Canadian syllabics carrier lhu
00162F Canadian syllabics carrier lho
001630 Canadian syllabics carrier lhe
001631 Canadian syllabics carrier lhee
001632 Canadian syllabics carrier lhi
001633 Canadian syllabics carrier lha
001634 Canadian syllabics carrier tlhu
001635 Canadian syllabics carrier tlho
001636 Canadian syllabics carrier tlhe
001637 Canadian syllabics carrier tlhee
001638 Canadian syllabics carrier tlhi
001639 Canadian syllabics carrier tlha
00163A Canadian syllabics carrier tlu
00163B Canadian syllabics carrier tlo
00163C Canadian syllabics carrier tle
00163D Canadian syllabics carrier tlee
00163E Canadian syllabics carrier tli
00163F Canadian syllabics carrier tla
001640 Canadian syllabics carrier zu
001641 Canadian syllabics carrier zo
001642 Canadian syllabics carrier ze
001643 Canadian syllabics carrier zee
001644 Canadian syllabics carrier zi
001645 Canadian syllabics carrier za
001646 Canadian syllabics carrier z
001647 Canadian syllabics carrier initial z
001648 Canadian syllabics carrier dzu
001649 Canadian syllabics carrier dzo
00164A Canadian syllabics carrier dze
00164B Canadian syllabics carrier dzee
00164C Canadian syllabics carrier dzi
00164D Canadian syllabics carrier dza
00164E Canadian syllabics carrier su
00164F Canadian syllabics carrier so
001650 Canadian syllabics carrier se
001651 Canadian syllabics carrier see
001652 Canadian syllabics carrier si
001653 Canadian syllabics carrier sa
001654 Canadian syllabics carrier shu
001655 Canadian syllabics carrier sho
001656 Canadian syllabics carrier she
001657 Canadian syllabics carrier shee
001658 Canadian syllabics carrier shi
001659 Canadian syllabics carrier sha
00165A Canadian syllabics carrier sh
00165B Canadian syllabics carrier tsu
00165C Canadian syllabics carrier tso
00165D Canadian syllabics carrier tse
00165E Canadian syllabics carrier tsee
00165F Canadian syllabics carrier tsi
001660 Canadian syllabics carrier tsa
001661 Canadian syllabics carrier chu
001662 Canadian syllabics carrier cho
001663 Canadian syllabics carrier che
001664 Canadian syllabics carrier chee
001665 Canadian syllabics carrier chi
001666 Canadian syllabics carrier cha
001667 Canadian syllabics carrier ttsu
001668 Canadian syllabics carrier ttso
001669 Canadian syllabics carrier ttse
00166A Canadian syllabics carrier ttsee
00166B Canadian syllabics carrier ttsi
00166C Canadian syllabics carrier ttsa
00166D Canadian syllabics chi sign
00166E Canadian syllabics full stop
00166F Canadian syllabics qai
001670 Canadian syllabics ngai
001671 Canadian syllabics nngi
001672 Canadian syllabics nngii
001673 Canadian syllabics nngo
001674 Canadian syllabics nngoo
001675 Canadian syllabics nnga
001676 Canadian syllabics nngaa
001677 Canadian syllabics woods-cree thwee
001678 Canadian syllabics woods-cree thwi
001679 Canadian syllabics woods-cree thwii
00167A Canadian syllabics woods-cree thwo
00167B Canadian syllabics woods-cree thwoo
00167C Canadian syllabics woods-cree thwa
00167D Canadian syllabics woods-cree thwaa
00167E Canadian syllabics woods-cree final th
00167F Canadian syllabics blackfoot w
001680 Ogham space mark
001681 Ogham letter beith
001682 Ogham letter luis
001683 Ogham letter fearn
001684 Ogham letter sail
001685 Ogham letter nion
001686 Ogham letter uath
001687 Ogham letter dair
001688 Ogham letter tinne
001689 Ogham letter coll
00168A Ogham letter ceirt
00168B Ogham letter muin
00168C Ogham letter gort
00168D Ogham letter ngeadal
00168E Ogham letter straif
00168F Ogham letter ruis
001690 Ogham letter ailm
001691 Ogham letter onn
001692 Ogham letter ur
001693 Ogham letter eadhadh
001694 Ogham letter iodhadh
001695 Ogham letter eabhadh
001696 Ogham letter or
001697 Ogham letter uilleann
001698 Ogham letter ifin
001699 Ogham letter eamhancholl
00169A Ogham letter peith
00169B Ogham feather mark
00169C Ogham reversed feather mark
0016A0 Runic letter fehu feoh fe f
0016A1 Runic letter v
0016A2 Runic letter uruz ur u
0016A3 Runic letter yr
0016A4 Runic letter y
0016A5 Runic letter w
0016A6 Runic letter thurisaz thurs thorn
0016A7 Runic letter eth
0016A8 Runic letter ansuz a
0016A9 Runic letter os o
0016AA Runic letter ac a
0016AB Runic letter aesc
0016AC Runic letter long-branch-oss o
0016AD Runic letter short-twig-oss o
0016AE Runic letter o
0016AF Runic letter oe
0016B0 Runic letter on
0016B1 Runic letter raido rad reid r
0016B2 Runic letter kauna
0016B3 Runic letter cen
0016B4 Runic letter kaun k
0016B5 Runic letter g
0016B6 Runic letter eng
0016B7 Runic letter gebo gyfu g
0016B8 Runic letter gar
0016B9 Runic letter wunjo wynn w
0016BA Runic letter haglaz h
0016BB Runic letter haegl h
0016BC Runic letter long-branch-hagall h
0016BD Runic letter short-twig-hagall h
0016BE Runic letter naudiz nyd naud n
0016BF Runic letter short-twig-naud n
0016C0 Runic letter dotted-n
0016C1 Runic letter isaz is iss i
0016C2 Runic letter e
0016C3 Runic letter jeran j
0016C4 Runic letter ger
0016C5 Runic letter long-branch-ar ae
0016C6 Runic letter short-twig-ar a
0016C7 Runic letter iwaz eoh
0016C8 Runic letter pertho peorth p
0016C9 Runic letter algiz eolhx
0016CA Runic letter sowilo s
0016CB Runic letter sigel long-branch-sol s
0016CC Runic letter short-twig-sol s
0016CD Runic letter c
0016CE Runic letter z
0016CF Runic letter tiwaz tir tyr t
0016D0 Runic letter short-twig-tyr t
0016D1 Runic letter d
0016D2 Runic letter berkanan beorc bjarkan b
0016D3 Runic letter short-twig-bjarkan b
0016D4 Runic letter dotted-p
0016D5 Runic letter open-p
0016D6 Runic letter ehwaz eh e
0016D7 Runic letter mannaz man m
0016D8 Runic letter long-branch-madr m
0016D9 Runic letter short-twig-madr m
0016DA Runic letter laukaz lagu logr l
0016DB Runic letter dotted-l
0016DC Runic letter ingwaz
0016DD Runic letter ing
0016DE Runic letter dagaz daeg d
0016DF Runic letter othalan ethel o
0016E0 Runic letter ear
0016E1 Runic letter ior
0016E2 Runic letter cweorth
0016E3 Runic letter calc
0016E4 Runic letter cealc
0016E5 Runic letter stan
0016E6 Runic letter long-branch-yr
0016E7 Runic letter short-twig-yr
0016E8 Runic letter icelandic-yr
0016E9 Runic letter q
0016EA Runic letter x
0016EB Runic single punctuation
0016EC Runic multiple punctuation
0016ED Runic cross punctuation
0016EE Runic arlaug symbol
0016EF Runic tvimadur symbol
0016F0 Runic belgthor symbol
0016F1 Runic letter k
0016F2 Runic letter sh
0016F3 Runic letter oo
0016F4 Runic letter franks casket os
0016F5 Runic letter franks casket is
0016F6 Runic letter franks casket eh
0016F7 Runic letter franks casket ac
0016F8 Runic letter franks casket aesc
001700 Tagalog letter a
001701 Tagalog letter i
001702 Tagalog letter u
001703 Tagalog letter ka
001704 Tagalog letter ga
001705 Tagalog letter nga
001706 Tagalog letter ta
001707 Tagalog letter da
001708 Tagalog letter na
001709 Tagalog letter pa
00170A Tagalog letter ba
00170B Tagalog letter ma
00170C Tagalog letter ya
00170D Tagalog letter ra
00170E Tagalog letter la
00170F Tagalog letter wa
001710 Tagalog letter sa
001711 Tagalog letter ha
001712 Tagalog vowel sign i
001713 Tagalog vowel sign u
001714 Tagalog sign virama
001715 Tagalog sign pamudpod
00171F Tagalog letter archaic ra
001720 Hanunoo letter a
001721 Hanunoo letter i
001722 Hanunoo letter u
001723 Hanunoo letter ka
001724 Hanunoo letter ga
001725 Hanunoo letter nga
001726 Hanunoo letter ta
001727 Hanunoo letter da
001728 Hanunoo letter na
001729 Hanunoo letter pa
00172A Hanunoo letter ba
00172B Hanunoo letter ma
00172C Hanunoo letter ya
00172D Hanunoo letter ra
00172E Hanunoo letter la
00172F Hanunoo letter wa
001730 Hanunoo letter sa
001731 Hanunoo letter ha
001732 Hanunoo vowel sign i
001733 Hanunoo vowel sign u
001734 Hanunoo sign pamudpod
001735 Philippine single punctuation
001736 Philippine double punctuation
001740 Buhid letter a
001741 Buhid letter i
001742 Buhid letter u
001743 Buhid letter ka
001744 Buhid letter ga
001745 Buhid letter nga
001746 Buhid letter ta
001747 Buhid letter da
001748 Buhid letter na
001749 Buhid letter pa
00174A Buhid letter ba
00174B Buhid letter ma
00174C Buhid letter ya
00174D Buhid letter ra
00174E Buhid letter la
00174F Buhid letter wa
001750 Buhid letter sa
001751 Buhid letter ha
001752 Buhid vowel sign i
001753 Buhid vowel sign u
001760 Tagbanwa letter a
001761 Tagbanwa letter i
001762 Tagbanwa letter u
001763 Tagbanwa letter ka
001764 Tagbanwa letter ga
001765 Tagbanwa letter nga
001766 Tagbanwa letter ta
001767 Tagbanwa letter da
001768 Tagbanwa letter na
001769 Tagbanwa letter pa
00176A Tagbanwa letter ba
00176B Tagbanwa letter ma
00176C Tagbanwa letter ya
00176E Tagbanwa letter la
00176F Tagbanwa letter wa
001770 Tagbanwa letter sa
001772 Tagbanwa vowel sign i
001773 Tagbanwa vowel sign u
001780 Khmer letter ka
001781 Khmer letter kha
001782 Khmer letter ko
001783 Khmer letter kho
001784 Khmer letter ngo
001785 Khmer letter ca
001786 Khmer letter cha
001787 Khmer letter co
001788 Khmer letter cho
001789 Khmer letter nyo
00178A Khmer letter da
00178B Khmer letter ttha
00178C Khmer letter do
00178D Khmer letter ttho
00178E Khmer letter nno
00178F Khmer letter ta
001790 Khmer letter tha
001791 Khmer letter to
001792 Khmer letter tho
001793 Khmer letter no
001794 Khmer letter ba
001795 Khmer letter pha
001796 Khmer letter po
001797 Khmer letter pho
001798 Khmer letter mo
001799 Khmer letter yo
00179A Khmer letter ro
00179B Khmer letter lo
00179C Khmer letter vo
00179D Khmer letter sha
00179E Khmer letter sso
00179F Khmer letter sa
0017A0 Khmer letter ha
0017A1 Khmer letter la
0017A2 Khmer letter qa
0017A3 Khmer independent vowel qaq
0017A4 Khmer independent vowel qaa
0017A5 Khmer independent vowel qi
0017A6 Khmer independent vowel qii
0017A7 Khmer independent vowel qu
0017A8 Khmer independent vowel quk
0017A9 Khmer independent vowel quu
0017AA Khmer independent vowel quuv
0017AB Khmer independent vowel ry
0017AC Khmer independent vowel ryy
0017AD Khmer independent vowel ly
0017AE Khmer independent vowel lyy
0017AF Khmer independent vowel qe
0017B0 Khmer independent vowel qai
0017B1 Khmer independent vowel qoo type one
0017B2 Khmer independent vowel qoo type two
0017B3 Khmer independent vowel qau
0017B4 Khmer vowel inherent aq
0017B5 Khmer vowel inherent aa
0017B6 Khmer vowel sign aa
0017B7 Khmer vowel sign i
0017B8 Khmer vowel sign ii
0017B9 Khmer vowel sign y
0017BA Khmer vowel sign yy
0017BB Khmer vowel sign u
0017BC Khmer vowel sign uu
0017BD Khmer vowel sign ua
0017BE Khmer vowel sign oe
0017BF Khmer vowel sign ya
0017C0 Khmer vowel sign ie
0017C1 Khmer vowel sign e
0017C2 Khmer vowel sign ae
0017C3 Khmer vowel sign ai
0017C4 Khmer vowel sign oo
0017C5 Khmer vowel sign au
0017C6 Khmer sign nikahit
0017C7 Khmer sign reahmuk
0017C8 Khmer sign yuukaleapintu
0017C9 Khmer sign muusikatoan
0017CA Khmer sign triisap
0017CB Khmer sign bantoc
0017CC Khmer sign robat
0017CD Khmer sign toandakhiat
0017CE Khmer sign kakabat
0017CF Khmer sign ahsda
0017D0 Khmer sign samyok sannya
0017D1 Khmer sign viriam
0017D2 Khmer sign coeng
0017D3 Khmer sign bathamasat
0017D4 Khmer sign khan
0017D5 Khmer sign bariyoosan
0017D6 Khmer sign camnuc pii kuuh
0017D7 Khmer sign lek too
0017D8 Khmer sign beyyal
0017D9 Khmer sign phnaek muan
0017DA Khmer sign koomuut
0017DB Khmer currency symbol riel
0017DC Khmer sign avakrahasanya
0017DD Khmer sign atthacan
0017E0 Khmer digit zero
0017E1 Khmer digit one
0017E2 Khmer digit two
0017E3 Khmer digit three
0017E4 Khmer digit four
0017E5 Khmer digit five
0017E6 Khmer digit six
0017E7 Khmer digit seven
0017E8 Khmer digit eight
0017E9 Khmer digit nine
0017F0 Khmer symbol lek attak son
0017F1 Khmer symbol lek attak muoy
0017F2 Khmer symbol lek attak pii
0017F3 Khmer symbol lek attak bei
0017F4 Khmer symbol lek attak buon
0017F5 Khmer symbol lek attak pram
0017F6 Khmer symbol lek attak pram-muoy
0017F7 Khmer symbol lek attak pram-pii
0017F8 Khmer symbol lek attak pram-bei
0017F9 Khmer symbol lek attak pram-buon
001800 Mongolian birga
001801 Mongolian ellipsis
001802 Mongolian comma
001803 Mongolian full stop
001804 Mongolian colon
001805 Mongolian four dots
001806 Mongolian todo soft hyphen
001807 Mongolian sibe syllable boundary marker
001808 Mongolian manchu comma
001809 Mongolian manchu full stop
00180A Mongolian nirugu
00180B Mongolian free variation selector one
00180C Mongolian free variation selector two
00180D Mongolian free variation selector three
00180E Mongolian vowel separator
00180F Mongolian free variation selector four
001810 Mongolian digit zero
001811 Mongolian digit one
001812 Mongolian digit two
001813 Mongolian digit three
001814 Mongolian digit four
001815 Mongolian digit five
001816 Mongolian digit six
001817 Mongolian digit seven
001818 Mongolian digit eight
001819 Mongolian digit nine
001820 Mongolian letter a
001821 Mongolian letter e
001822 Mongolian letter i
001823 Mongolian letter o
001824 Mongolian letter u
001825 Mongolian letter oe
001826 Mongolian letter ue
001827 Mongolian letter ee
001828 Mongolian letter na
001829 Mongolian letter ang
00182A Mongolian letter ba
00182B Mongolian letter pa
00182C Mongolian letter qa
00182D Mongolian letter ga
00182E Mongolian letter ma
00182F Mongolian letter la
001830 Mongolian letter sa
001831 Mongolian letter sha
001832 Mongolian letter ta
001833 Mongolian letter da
001834 Mongolian letter cha
001835 Mongolian letter ja
001836 Mongolian letter ya
001837 Mongolian letter ra
001838 Mongolian letter wa
001839 Mongolian letter fa
00183A Mongolian letter ka
00183B Mongolian letter kha
00183C Mongolian letter tsa
00183D Mongolian letter za
00183E Mongolian letter haa
00183F Mongolian letter zra
001840 Mongolian letter lha
001841 Mongolian letter zhi
001842 Mongolian letter chi
001843 Mongolian letter todo long vowel sign
001844 Mongolian letter todo e
001845 Mongolian letter todo i
001846 Mongolian letter todo o
001847 Mongolian letter todo u
001848 Mongolian letter todo oe
001849 Mongolian letter todo ue
00184A Mongolian letter todo ang
00184B Mongolian letter todo ba
00184C Mongolian letter todo pa
";

pub const NAMES_13: &'static str = "00184D Mongolian letter todo qa
00184E Mongolian letter todo ga
00184F Mongolian letter todo ma
001850 Mongolian letter todo ta
001851 Mongolian letter todo da
001852 Mongolian letter todo cha
001853 Mongolian letter todo ja
001854 Mongolian letter todo tsa
001855 Mongolian letter todo ya
001856 Mongolian letter todo wa
001857 Mongolian letter todo ka
001858 Mongolian letter todo gaa
001859 Mongolian letter todo haa
00185A Mongolian letter todo jia
00185B Mongolian letter todo nia
00185C Mongolian letter todo dza
00185D Mongolian letter sibe e
00185E Mongolian letter sibe i
00185F Mongolian letter sibe iy
001860 Mongolian letter sibe ue
001861 Mongolian letter sibe u
001862 Mongolian letter sibe ang
001863 Mongolian letter sibe ka
001864 Mongolian letter sibe ga
001865 Mongolian letter sibe ha
001866 Mongolian letter sibe pa
001867 Mongolian letter sibe sha
001868 Mongolian letter sibe ta
001869 Mongolian letter sibe da
00186A Mongolian letter sibe ja
00186B Mongolian letter sibe fa
00186C Mongolian letter sibe gaa
00186D Mongolian letter sibe haa
00186E Mongolian letter sibe tsa
00186F Mongolian letter sibe za
001870 Mongolian letter sibe raa
001871 Mongolian letter sibe cha
001872 Mongolian letter sibe zha
001873 Mongolian letter manchu i
001874 Mongolian letter manchu ka
001875 Mongolian letter manchu ra
001876 Mongolian letter manchu fa
001877 Mongolian letter manchu zha
001878 Mongolian letter cha with two dots
001880 Mongolian letter ali gali anusvara one
001881 Mongolian letter ali gali visarga one
001882 Mongolian letter ali gali damaru
001883 Mongolian letter ali gali ubadama
001884 Mongolian letter ali gali inverted ubadama
001885 Mongolian letter ali gali baluda
001886 Mongolian letter ali gali three baluda
001887 Mongolian letter ali gali a
001888 Mongolian letter ali gali i
001889 Mongolian letter ali gali ka
00188A Mongolian letter ali gali nga
00188B Mongolian letter ali gali ca
00188C Mongolian letter ali gali tta
00188D Mongolian letter ali gali ttha
00188E Mongolian letter ali gali dda
00188F Mongolian letter ali gali nna
001890 Mongolian letter ali gali ta
001891 Mongolian letter ali gali da
001892 Mongolian letter ali gali pa
001893 Mongolian letter ali gali pha
001894 Mongolian letter ali gali ssa
001895 Mongolian letter ali gali zha
001896 Mongolian letter ali gali za
001897 Mongolian letter ali gali ah
001898 Mongolian letter todo ali gali ta
001899 Mongolian letter todo ali gali zha
00189A Mongolian letter manchu ali gali gha
00189B Mongolian letter manchu ali gali nga
00189C Mongolian letter manchu ali gali ca
00189D Mongolian letter manchu ali gali jha
00189E Mongolian letter manchu ali gali tta
00189F Mongolian letter manchu ali gali ddha
0018A0 Mongolian letter manchu ali gali ta
0018A1 Mongolian letter manchu ali gali dha
0018A2 Mongolian letter manchu ali gali ssa
0018A3 Mongolian letter manchu ali gali cya
0018A4 Mongolian letter manchu ali gali zha
0018A5 Mongolian letter manchu ali gali za
0018A6 Mongolian letter ali gali half u
0018A7 Mongolian letter ali gali half ya
0018A8 Mongolian letter manchu ali gali bha
0018A9 Mongolian letter ali gali dagalga
0018AA Mongolian letter manchu ali gali lha
0018B0 Canadian syllabics oy
0018B1 Canadian syllabics ay
0018B2 Canadian syllabics aay
0018B3 Canadian syllabics way
0018B4 Canadian syllabics poy
0018B5 Canadian syllabics pay
0018B6 Canadian syllabics pwoy
0018B7 Canadian syllabics tay
0018B8 Canadian syllabics kay
0018B9 Canadian syllabics kway
0018BA Canadian syllabics may
0018BB Canadian syllabics noy
0018BC Canadian syllabics nay
0018BD Canadian syllabics lay
0018BE Canadian syllabics soy
0018BF Canadian syllabics say
0018C0 Canadian syllabics shoy
0018C1 Canadian syllabics shay
0018C2 Canadian syllabics shwoy
0018C3 Canadian syllabics yoy
0018C4 Canadian syllabics yay
0018C5 Canadian syllabics ray
0018C6 Canadian syllabics nwi
0018C7 Canadian syllabics ojibway nwi
0018C8 Canadian syllabics nwii
0018C9 Canadian syllabics ojibway nwii
0018CA Canadian syllabics nwo
0018CB Canadian syllabics ojibway nwo
0018CC Canadian syllabics nwoo
0018CD Canadian syllabics ojibway nwoo
0018CE Canadian syllabics rwee
0018CF Canadian syllabics rwi
0018D0 Canadian syllabics rwii
0018D1 Canadian syllabics rwo
0018D2 Canadian syllabics rwoo
0018D3 Canadian syllabics rwa
0018D4 Canadian syllabics ojibway p
0018D5 Canadian syllabics ojibway t
0018D6 Canadian syllabics ojibway k
0018D7 Canadian syllabics ojibway c
0018D8 Canadian syllabics ojibway m
0018D9 Canadian syllabics ojibway n
0018DA Canadian syllabics ojibway s
0018DB Canadian syllabics ojibway sh
0018DC Canadian syllabics eastern w
0018DD Canadian syllabics western w
0018DE Canadian syllabics final small ring
0018DF Canadian syllabics final raised dot
0018E0 Canadian syllabics r-cree rwe
0018E1 Canadian syllabics west-cree loo
0018E2 Canadian syllabics west-cree laa
0018E3 Canadian syllabics thwe
0018E4 Canadian syllabics thwa
0018E5 Canadian syllabics tthwe
0018E6 Canadian syllabics tthoo
0018E7 Canadian syllabics tthaa
0018E8 Canadian syllabics tlhwe
0018E9 Canadian syllabics tlhoo
0018EA Canadian syllabics sayisi shwe
0018EB Canadian syllabics sayisi shoo
0018EC Canadian syllabics sayisi hoo
0018ED Canadian syllabics carrier gwu
0018EE Canadian syllabics carrier dene gee
0018EF Canadian syllabics carrier gaa
0018F0 Canadian syllabics carrier gwa
0018F1 Canadian syllabics sayisi juu
0018F2 Canadian syllabics carrier jwa
0018F3 Canadian syllabics beaver dene l
0018F4 Canadian syllabics beaver dene r
0018F5 Canadian syllabics carrier dental s
001900 Limbu vowel-carrier letter
001901 Limbu letter ka
001902 Limbu letter kha
001903 Limbu letter ga
001904 Limbu letter gha
001905 Limbu letter nga
001906 Limbu letter ca
001907 Limbu letter cha
001908 Limbu letter ja
001909 Limbu letter jha
00190A Limbu letter yan
00190B Limbu letter ta
00190C Limbu letter tha
00190D Limbu letter da
00190E Limbu letter dha
00190F Limbu letter na
001910 Limbu letter pa
001911 Limbu letter pha
001912 Limbu letter ba
001913 Limbu letter bha
001914 Limbu letter ma
001915 Limbu letter ya
001916 Limbu letter ra
001917 Limbu letter la
001918 Limbu letter wa
001919 Limbu letter sha
00191A Limbu letter ssa
00191B Limbu letter sa
00191C Limbu letter ha
00191D Limbu letter gyan
00191E Limbu letter tra
001920 Limbu vowel sign a
001921 Limbu vowel sign i
001922 Limbu vowel sign u
001923 Limbu vowel sign ee
001924 Limbu vowel sign ai
001925 Limbu vowel sign oo
001926 Limbu vowel sign au
001927 Limbu vowel sign e
001928 Limbu vowel sign o
001929 Limbu subjoined letter ya
00192A Limbu subjoined letter ra
00192B Limbu subjoined letter wa
001930 Limbu small letter ka
001931 Limbu small letter nga
001932 Limbu small letter anusvara
001933 Limbu small letter ta
001934 Limbu small letter na
001935 Limbu small letter pa
001936 Limbu small letter ma
001937 Limbu small letter ra
001938 Limbu small letter la
001939 Limbu sign mukphreng
00193A Limbu sign kemphreng
00193B Limbu sign sa-i
001940 Limbu sign loo
001944 Limbu exclamation mark
001945 Limbu question mark
001946 Limbu digit zero
001947 Limbu digit one
001948 Limbu digit two
001949 Limbu digit three
00194A Limbu digit four
00194B Limbu digit five
00194C Limbu digit six
00194D Limbu digit seven
00194E Limbu digit eight
00194F Limbu digit nine
001950 Tai le letter ka
001951 Tai le letter xa
001952 Tai le letter nga
001953 Tai le letter tsa
001954 Tai le letter sa
001955 Tai le letter ya
001956 Tai le letter ta
001957 Tai le letter tha
001958 Tai le letter la
001959 Tai le letter pa
00195A Tai le letter pha
00195B Tai le letter ma
00195C Tai le letter fa
00195D Tai le letter va
00195E Tai le letter ha
00195F Tai le letter qa
001960 Tai le letter kha
001961 Tai le letter tsha
001962 Tai le letter na
001963 Tai le letter a
001964 Tai le letter i
001965 Tai le letter ee
001966 Tai le letter eh
001967 Tai le letter u
001968 Tai le letter oo
001969 Tai le letter o
00196A Tai le letter ue
00196B Tai le letter e
00196C Tai le letter aue
00196D Tai le letter ai
001970 Tai le letter tone-2
001971 Tai le letter tone-3
001972 Tai le letter tone-4
001973 Tai le letter tone-5
001974 Tai le letter tone-6
001980 New tai lue letter high qa
001981 New tai lue letter low qa
001982 New tai lue letter high ka
001983 New tai lue letter high xa
001984 New tai lue letter high nga
001985 New tai lue letter low ka
001986 New tai lue letter low xa
001987 New tai lue letter low nga
001988 New tai lue letter high tsa
001989 New tai lue letter high sa
00198A New tai lue letter high ya
00198B New tai lue letter low tsa
00198C New tai lue letter low sa
00198D New tai lue letter low ya
00198E New tai lue letter high ta
00198F New tai lue letter high tha
001990 New tai lue letter high na
001991 New tai lue letter low ta
001992 New tai lue letter low tha
001993 New tai lue letter low na
001994 New tai lue letter high pa
001995 New tai lue letter high pha
001996 New tai lue letter high ma
001997 New tai lue letter low pa
001998 New tai lue letter low pha
001999 New tai lue letter low ma
00199A New tai lue letter high fa
00199B New tai lue letter high va
00199C New tai lue letter high la
00199D New tai lue letter low fa
00199E New tai lue letter low va
00199F New tai lue letter low la
0019A0 New tai lue letter high ha
0019A1 New tai lue letter high da
0019A2 New tai lue letter high ba
0019A3 New tai lue letter low ha
0019A4 New tai lue letter low da
0019A5 New tai lue letter low ba
0019A6 New tai lue letter high kva
0019A7 New tai lue letter high xva
0019A8 New tai lue letter low kva
0019A9 New tai lue letter low xva
0019AA New tai lue letter high sua
0019AB New tai lue letter low sua
0019B0 New tai lue vowel sign vowel shortener
0019B1 New tai lue vowel sign aa
0019B2 New tai lue vowel sign ii
0019B3 New tai lue vowel sign u
0019B4 New tai lue vowel sign uu
0019B5 New tai lue vowel sign e
0019B6 New tai lue vowel sign ae
0019B7 New tai lue vowel sign o
0019B8 New tai lue vowel sign oa
0019B9 New tai lue vowel sign ue
0019BA New tai lue vowel sign ay
0019BB New tai lue vowel sign aay
0019BC New tai lue vowel sign uy
0019BD New tai lue vowel sign oy
0019BE New tai lue vowel sign oay
0019BF New tai lue vowel sign uey
0019C0 New tai lue vowel sign iy
0019C1 New tai lue letter final v
0019C2 New tai lue letter final ng
0019C3 New tai lue letter final n
0019C4 New tai lue letter final m
0019C5 New tai lue letter final k
0019C6 New tai lue letter final d
0019C7 New tai lue letter final b
0019C8 New tai lue tone mark-1
0019C9 New tai lue tone mark-2
0019D0 New tai lue digit zero
0019D1 New tai lue digit one
0019D2 New tai lue digit two
0019D3 New tai lue digit three
0019D4 New tai lue digit four
0019D5 New tai lue digit five
0019D6 New tai lue digit six
0019D7 New tai lue digit seven
0019D8 New tai lue digit eight
0019D9 New tai lue digit nine
0019DA New tai lue tham digit one
0019DE New tai lue sign lae
0019DF New tai lue sign laev
0019E0 Khmer symbol pathamasat
0019E1 Khmer symbol muoy koet
0019E2 Khmer symbol pii koet
0019E3 Khmer symbol bei koet
0019E4 Khmer symbol buon koet
0019E5 Khmer symbol pram koet
0019E6 Khmer symbol pram-muoy koet
0019E7 Khmer symbol pram-pii koet
0019E8 Khmer symbol pram-bei koet
0019E9 Khmer symbol pram-buon koet
0019EA Khmer symbol dap koet
0019EB Khmer symbol dap-muoy koet
0019EC Khmer symbol dap-pii koet
0019ED Khmer symbol dap-bei koet
0019EE Khmer symbol dap-buon koet
0019EF Khmer symbol dap-pram koet
0019F0 Khmer symbol tuteyasat
0019F1 Khmer symbol muoy roc
0019F2 Khmer symbol pii roc
0019F3 Khmer symbol bei roc
0019F4 Khmer symbol buon roc
0019F5 Khmer symbol pram roc
0019F6 Khmer symbol pram-muoy roc
0019F7 Khmer symbol pram-pii roc
0019F8 Khmer symbol pram-bei roc
0019F9 Khmer symbol pram-buon roc
0019FA Khmer symbol dap roc
0019FB Khmer symbol dap-muoy roc
0019FC Khmer symbol dap-pii roc
0019FD Khmer symbol dap-bei roc
0019FE Khmer symbol dap-buon roc
0019FF Khmer symbol dap-pram roc
001A00 Buginese letter ka
001A01 Buginese letter ga
001A02 Buginese letter nga
001A03 Buginese letter ngka
001A04 Buginese letter pa
001A05 Buginese letter ba
001A06 Buginese letter ma
001A07 Buginese letter mpa
001A08 Buginese letter ta
001A09 Buginese letter da
001A0A Buginese letter na
001A0B Buginese letter nra
001A0C Buginese letter ca
001A0D Buginese letter ja
001A0E Buginese letter nya
001A0F Buginese letter nyca
001A10 Buginese letter ya
001A11 Buginese letter ra
001A12 Buginese letter la
001A13 Buginese letter va
001A14 Buginese letter sa
001A15 Buginese letter a
001A16 Buginese letter ha
001A17 Buginese vowel sign i
001A18 Buginese vowel sign u
001A19 Buginese vowel sign e
001A1A Buginese vowel sign o
001A1B Buginese vowel sign ae
001A1E Buginese pallawa
001A1F Buginese end of section
001A20 Tai tham letter high ka
001A21 Tai tham letter high kha
001A22 Tai tham letter high kxa
001A23 Tai tham letter low ka
001A24 Tai tham letter low kxa
001A25 Tai tham letter low kha
001A26 Tai tham letter nga
001A27 Tai tham letter high ca
001A28 Tai tham letter high cha
001A29 Tai tham letter low ca
001A2A Tai tham letter low sa
001A2B Tai tham letter low cha
001A2C Tai tham letter nya
001A2D Tai tham letter rata
001A2E Tai tham letter high ratha
001A2F Tai tham letter da
001A30 Tai tham letter low ratha
001A31 Tai tham letter rana
001A32 Tai tham letter high ta
001A33 Tai tham letter high tha
001A34 Tai tham letter low ta
001A35 Tai tham letter low tha
001A36 Tai tham letter na
001A37 Tai tham letter ba
001A38 Tai tham letter high pa
001A39 Tai tham letter high pha
001A3A Tai tham letter high fa
001A3B Tai tham letter low pa
001A3C Tai tham letter low fa
001A3D Tai tham letter low pha
001A3E Tai tham letter ma
001A3F Tai tham letter low ya
001A40 Tai tham letter high ya
001A41 Tai tham letter ra
001A42 Tai tham letter rue
001A43 Tai tham letter la
001A44 Tai tham letter lue
001A45 Tai tham letter wa
001A46 Tai tham letter high sha
001A47 Tai tham letter high ssa
001A48 Tai tham letter high sa
001A49 Tai tham letter high ha
";

pub const NAMES_14: &'static str = "001A4A Tai tham letter lla
001A4B Tai tham letter a
001A4C Tai tham letter low ha
001A4D Tai tham letter i
001A4E Tai tham letter ii
001A4F Tai tham letter u
001A50 Tai tham letter uu
001A51 Tai tham letter ee
001A52 Tai tham letter oo
001A53 Tai tham letter lae
001A54 Tai tham letter great sa
001A55 Tai tham consonant sign medial ra
001A56 Tai tham consonant sign medial la
001A57 Tai tham consonant sign la tang lai
001A58 Tai tham sign mai kang lai
001A59 Tai tham consonant sign final nga
001A5A Tai tham consonant sign low pa
001A5B Tai tham consonant sign high ratha or low pa
001A5C Tai tham consonant sign ma
001A5D Tai tham consonant sign ba
001A5E Tai tham consonant sign sa
001A60 Tai tham sign sakot
001A61 Tai tham vowel sign a
001A62 Tai tham vowel sign mai sat
001A63 Tai tham vowel sign aa
001A64 Tai tham vowel sign tall aa
001A65 Tai tham vowel sign i
001A66 Tai tham vowel sign ii
001A67 Tai tham vowel sign ue
001A68 Tai tham vowel sign uue
001A69 Tai tham vowel sign u
001A6A Tai tham vowel sign uu
001A6B Tai tham vowel sign o
001A6C Tai tham vowel sign oa below
001A6D Tai tham vowel sign oy
001A6E Tai tham vowel sign e
001A6F Tai tham vowel sign ae
001A70 Tai tham vowel sign oo
001A71 Tai tham vowel sign ai
001A72 Tai tham vowel sign tham ai
001A73 Tai tham vowel sign oa above
001A74 Tai tham sign mai kang
001A75 Tai tham sign tone-1
001A76 Tai tham sign tone-2
001A77 Tai tham sign khuen tone-3
001A78 Tai tham sign khuen tone-4
001A79 Tai tham sign khuen tone-5
001A7A Tai tham sign ra haam
001A7B Tai tham sign mai sam
001A7C Tai tham sign khuen-lue karan
001A7F Tai tham combining cryptogrammic dot
001A80 Tai tham hora digit zero
001A81 Tai tham hora digit one
001A82 Tai tham hora digit two
001A83 Tai tham hora digit three
001A84 Tai tham hora digit four
001A85 Tai tham hora digit five
001A86 Tai tham hora digit six
001A87 Tai tham hora digit seven
001A88 Tai tham hora digit eight
001A89 Tai tham hora digit nine
001A90 Tai tham tham digit zero
001A91 Tai tham tham digit one
001A92 Tai tham tham digit two
001A93 Tai tham tham digit three
001A94 Tai tham tham digit four
001A95 Tai tham tham digit five
001A96 Tai tham tham digit six
001A97 Tai tham tham digit seven
001A98 Tai tham tham digit eight
001A99 Tai tham tham digit nine
001AA0 Tai tham sign wiang
001AA1 Tai tham sign wiangwaak
001AA2 Tai tham sign sawan
001AA3 Tai tham sign keow
001AA4 Tai tham sign hoy
001AA5 Tai tham sign dokmai
001AA6 Tai tham sign reversed rotated rana
001AA7 Tai tham sign mai yamok
001AA8 Tai tham sign kaan
001AA9 Tai tham sign kaankuu
001AAA Tai tham sign satkaan
001AAB Tai tham sign satkaankuu
001AAC Tai tham sign hang
001AAD Tai tham sign caang
001AB0 Combining doubled circumflex accent
001AB1 Combining diaeresis-ring
001AB2 Combining infinity
001AB3 Combining downwards arrow
001AB4 Combining triple dot
001AB5 Combining x-x below
001AB6 Combining wiggly line below
001AB7 Combining open mark below
001AB8 Combining double open mark below
001AB9 Combining light centralization stroke below
001ABA Combining strong centralization stroke below
001ABB Combining parentheses above
001ABC Combining double parentheses above
001ABD Combining parentheses below
001ABE Combining parentheses overlay
001ABF Combining latin small letter w below
001AC0 Combining latin small letter turned w below
001AC1 Combining left parenthesis above left
001AC2 Combining right parenthesis above right
001AC3 Combining left parenthesis below left
001AC4 Combining right parenthesis below right
001AC5 Combining square brackets above
001AC6 Combining number sign above
001AC7 Combining inverted double arch above
001AC8 Combining plus sign above
001AC9 Combining double plus sign above
001ACA Combining double plus sign below
001ACB Combining triple acute accent
001ACC Combining latin small letter insular g
001ACD Combining latin small letter insular r
001ACE Combining latin small letter insular t
001B00 Balinese sign ulu ricem
001B01 Balinese sign ulu candra
001B02 Balinese sign cecek
001B03 Balinese sign surang
001B04 Balinese sign bisah
001B05 Balinese letter akara
001B06 Balinese letter akara tedung
001B07 Balinese letter ikara
001B08 Balinese letter ikara tedung
001B09 Balinese letter ukara
001B0A Balinese letter ukara tedung
001B0B Balinese letter ra repa
001B0C Balinese letter ra repa tedung
001B0D Balinese letter la lenga
001B0E Balinese letter la lenga tedung
001B0F Balinese letter ekara
001B10 Balinese letter aikara
001B11 Balinese letter okara
001B12 Balinese letter okara tedung
001B13 Balinese letter ka
001B14 Balinese letter ka mahaprana
001B15 Balinese letter ga
001B16 Balinese letter ga gora
001B17 Balinese letter nga
001B18 Balinese letter ca
001B19 Balinese letter ca laca
001B1A Balinese letter ja
001B1B Balinese letter ja jera
001B1C Balinese letter nya
001B1D Balinese letter ta latik
001B1E Balinese letter ta murda mahaprana
001B1F Balinese letter da murda alpaprana
001B20 Balinese letter da murda mahaprana
001B21 Balinese letter na rambat
001B22 Balinese letter ta
001B23 Balinese letter ta tawa
001B24 Balinese letter da
001B25 Balinese letter da madu
001B26 Balinese letter na
001B27 Balinese letter pa
001B28 Balinese letter pa kapal
001B29 Balinese letter ba
001B2A Balinese letter ba kembang
001B2B Balinese letter ma
001B2C Balinese letter ya
001B2D Balinese letter ra
001B2E Balinese letter la
001B2F Balinese letter wa
001B30 Balinese letter sa saga
001B31 Balinese letter sa sapa
001B32 Balinese letter sa
001B33 Balinese letter ha
001B34 Balinese sign rerekan
001B35 Balinese vowel sign tedung
001B36 Balinese vowel sign ulu
001B37 Balinese vowel sign ulu sari
001B38 Balinese vowel sign suku
001B39 Balinese vowel sign suku ilut
001B3A Balinese vowel sign ra repa
001B3B Balinese vowel sign ra repa tedung
001B3C Balinese vowel sign la lenga
001B3D Balinese vowel sign la lenga tedung
001B3E Balinese vowel sign taling
001B3F Balinese vowel sign taling repa
001B40 Balinese vowel sign taling tedung
001B41 Balinese vowel sign taling repa tedung
001B42 Balinese vowel sign pepet
001B43 Balinese vowel sign pepet tedung
001B44 Balinese adeg adeg
001B45 Balinese letter kaf sasak
001B46 Balinese letter khot sasak
001B47 Balinese letter tzir sasak
001B48 Balinese letter ef sasak
001B49 Balinese letter ve sasak
001B4A Balinese letter zal sasak
001B4B Balinese letter asyura sasak
001B4C Balinese letter archaic jnya
001B50 Balinese digit zero
001B51 Balinese digit one
001B52 Balinese digit two
001B53 Balinese digit three
001B54 Balinese digit four
001B55 Balinese digit five
001B56 Balinese digit six
001B57 Balinese digit seven
001B58 Balinese digit eight
001B59 Balinese digit nine
001B5A Balinese panti
001B5B Balinese pamada
001B5C Balinese windu
001B5D Balinese carik pamungkah
001B5E Balinese carik siki
001B5F Balinese carik pareren
001B60 Balinese pameneng
001B61 Balinese musical symbol dong
001B62 Balinese musical symbol deng
001B63 Balinese musical symbol dung
001B64 Balinese musical symbol dang
001B65 Balinese musical symbol dang surang
001B66 Balinese musical symbol ding
001B67 Balinese musical symbol daeng
001B68 Balinese musical symbol deung
001B69 Balinese musical symbol daing
001B6A Balinese musical symbol dang gede
001B6B Balinese musical symbol combining tegeh
001B6C Balinese musical symbol combining endep
001B6D Balinese musical symbol combining kempul
001B6E Balinese musical symbol combining kempli
001B6F Balinese musical symbol combining jegogan
001B70 Balinese musical symbol combining kempul with jegogan
001B71 Balinese musical symbol combining kempli with jegogan
001B72 Balinese musical symbol combining bende
001B73 Balinese musical symbol combining gong
001B74 Balinese musical symbol right-hand open dug
001B75 Balinese musical symbol right-hand open dag
001B76 Balinese musical symbol right-hand closed tuk
001B77 Balinese musical symbol right-hand closed tak
001B78 Balinese musical symbol left-hand open pang
001B79 Balinese musical symbol left-hand open pung
001B7A Balinese musical symbol left-hand closed plak
001B7B Balinese musical symbol left-hand closed pluk
001B7C Balinese musical symbol left-hand open ping
001B7D Balinese panti lantang
001B7E Balinese pamada lantang
001B80 Sundanese sign panyecek
001B81 Sundanese sign panglayar
001B82 Sundanese sign pangwisad
001B83 Sundanese letter a
001B84 Sundanese letter i
001B85 Sundanese letter u
001B86 Sundanese letter ae
001B87 Sundanese letter o
001B88 Sundanese letter e
001B89 Sundanese letter eu
001B8A Sundanese letter ka
001B8B Sundanese letter qa
001B8C Sundanese letter ga
001B8D Sundanese letter nga
001B8E Sundanese letter ca
001B8F Sundanese letter ja
001B90 Sundanese letter za
001B91 Sundanese letter nya
001B92 Sundanese letter ta
001B93 Sundanese letter da
001B94 Sundanese letter na
001B95 Sundanese letter pa
001B96 Sundanese letter fa
001B97 Sundanese letter va
001B98 Sundanese letter ba
001B99 Sundanese letter ma
001B9A Sundanese letter ya
001B9B Sundanese letter ra
001B9C Sundanese letter la
001B9D Sundanese letter wa
001B9E Sundanese letter sa
001B9F Sundanese letter xa
001BA0 Sundanese letter ha
001BA1 Sundanese consonant sign pamingkal
001BA2 Sundanese consonant sign panyakra
001BA3 Sundanese consonant sign panyiku
001BA4 Sundanese vowel sign panghulu
001BA5 Sundanese vowel sign panyuku
001BA6 Sundanese vowel sign panaelaeng
001BA7 Sundanese vowel sign panolong
001BA8 Sundanese vowel sign pamepet
001BA9 Sundanese vowel sign paneuleung
001BAA Sundanese sign pamaaeh
001BAB Sundanese sign virama
001BAC Sundanese consonant sign pasangan ma
001BAD Sundanese consonant sign pasangan wa
001BAE Sundanese letter kha
001BAF Sundanese letter sya
001BB0 Sundanese digit zero
001BB1 Sundanese digit one
001BB2 Sundanese digit two
001BB3 Sundanese digit three
001BB4 Sundanese digit four
001BB5 Sundanese digit five
001BB6 Sundanese digit six
001BB7 Sundanese digit seven
001BB8 Sundanese digit eight
001BB9 Sundanese digit nine
001BBA Sundanese avagraha
001BBB Sundanese letter reu
001BBC Sundanese letter leu
001BBD Sundanese letter bha
001BBE Sundanese letter final k
001BBF Sundanese letter final m
001BC0 Batak letter a
001BC1 Batak letter simalungun a
001BC2 Batak letter ha
001BC3 Batak letter simalungun ha
001BC4 Batak letter mandailing ha
001BC5 Batak letter ba
001BC6 Batak letter karo ba
001BC7 Batak letter pa
001BC8 Batak letter simalungun pa
001BC9 Batak letter na
001BCA Batak letter mandailing na
001BCB Batak letter wa
001BCC Batak letter simalungun wa
001BCD Batak letter pakpak wa
001BCE Batak letter ga
001BCF Batak letter simalungun ga
001BD0 Batak letter ja
001BD1 Batak letter da
001BD2 Batak letter ra
001BD3 Batak letter simalungun ra
001BD4 Batak letter ma
001BD5 Batak letter simalungun ma
001BD6 Batak letter southern ta
001BD7 Batak letter northern ta
001BD8 Batak letter sa
001BD9 Batak letter simalungun sa
001BDA Batak letter mandailing sa
001BDB Batak letter ya
001BDC Batak letter simalungun ya
001BDD Batak letter nga
001BDE Batak letter la
001BDF Batak letter simalungun la
001BE0 Batak letter nya
001BE1 Batak letter ca
001BE2 Batak letter nda
001BE3 Batak letter mba
001BE4 Batak letter i
001BE5 Batak letter u
001BE6 Batak sign tompi
001BE7 Batak vowel sign e
001BE8 Batak vowel sign pakpak e
001BE9 Batak vowel sign ee
001BEA Batak vowel sign i
001BEB Batak vowel sign karo i
001BEC Batak vowel sign o
001BED Batak vowel sign karo o
001BEE Batak vowel sign u
001BEF Batak vowel sign u for simalungun sa
001BF0 Batak consonant sign ng
001BF1 Batak consonant sign h
001BF2 Batak pangolat
001BF3 Batak panongonan
001BFC Batak symbol bindu na metek
001BFD Batak symbol bindu pinarboras
001BFE Batak symbol bindu judul
001BFF Batak symbol bindu pangolat
001C00 Lepcha letter ka
001C01 Lepcha letter kla
001C02 Lepcha letter kha
001C03 Lepcha letter ga
001C04 Lepcha letter gla
001C05 Lepcha letter nga
001C06 Lepcha letter ca
001C07 Lepcha letter cha
001C08 Lepcha letter ja
001C09 Lepcha letter nya
001C0A Lepcha letter ta
001C0B Lepcha letter tha
001C0C Lepcha letter da
001C0D Lepcha letter na
001C0E Lepcha letter pa
001C0F Lepcha letter pla
001C10 Lepcha letter pha
001C11 Lepcha letter fa
001C12 Lepcha letter fla
001C13 Lepcha letter ba
001C14 Lepcha letter bla
001C15 Lepcha letter ma
001C16 Lepcha letter mla
001C17 Lepcha letter tsa
001C18 Lepcha letter tsha
001C19 Lepcha letter dza
001C1A Lepcha letter ya
001C1B Lepcha letter ra
001C1C Lepcha letter la
001C1D Lepcha letter ha
001C1E Lepcha letter hla
001C1F Lepcha letter va
001C20 Lepcha letter sa
001C21 Lepcha letter sha
001C22 Lepcha letter wa
001C23 Lepcha letter a
001C24 Lepcha subjoined letter ya
001C25 Lepcha subjoined letter ra
001C26 Lepcha vowel sign aa
001C27 Lepcha vowel sign i
001C28 Lepcha vowel sign o
001C29 Lepcha vowel sign oo
001C2A Lepcha vowel sign u
001C2B Lepcha vowel sign uu
001C2C Lepcha vowel sign e
001C2D Lepcha consonant sign k
001C2E Lepcha consonant sign m
001C2F Lepcha consonant sign l
001C30 Lepcha consonant sign n
001C31 Lepcha consonant sign p
001C32 Lepcha consonant sign r
001C33 Lepcha consonant sign t
001C34 Lepcha consonant sign nyin-do
001C35 Lepcha consonant sign kang
001C36 Lepcha sign ran
001C37 Lepcha sign nukta
001C3B Lepcha punctuation ta-rol
001C3C Lepcha punctuation nyet thyoom ta-rol
001C3D Lepcha punctuation cer-wa
001C3E Lepcha punctuation tshook cer-wa
001C3F Lepcha punctuation tshook
001C40 Lepcha digit zero
001C41 Lepcha digit one
001C42 Lepcha digit two
001C43 Lepcha digit three
001C44 Lepcha digit four
001C45 Lepcha digit five
001C46 Lepcha digit six
001C47 Lepcha digit seven
001C48 Lepcha digit eight
001C49 Lepcha digit nine
001C4D Lepcha letter tta
001C4E Lepcha letter ttha
001C4F Lepcha letter dda
001C50 Ol chiki digit zero
001C51 Ol chiki digit one
001C52 Ol chiki digit two
001C53 Ol chiki digit three
001C54 Ol chiki digit four
001C55 Ol chiki digit five
001C56 Ol chiki digit six
001C57 Ol chiki digit seven
001C58 Ol chiki digit eight
001C59 Ol chiki digit nine
001C5A Ol chiki letter la
001C5B Ol chiki letter at
";

pub const NAMES_15: &'static str = "001C5C Ol chiki letter ag
001C5D Ol chiki letter ang
001C5E Ol chiki letter al
001C5F Ol chiki letter laa
001C60 Ol chiki letter aak
001C61 Ol chiki letter aaj
001C62 Ol chiki letter aam
001C63 Ol chiki letter aaw
001C64 Ol chiki letter li
001C65 Ol chiki letter is
001C66 Ol chiki letter ih
001C67 Ol chiki letter iny
001C68 Ol chiki letter ir
001C69 Ol chiki letter lu
001C6A Ol chiki letter uc
001C6B Ol chiki letter ud
001C6C Ol chiki letter unn
001C6D Ol chiki letter uy
001C6E Ol chiki letter le
001C6F Ol chiki letter ep
001C70 Ol chiki letter edd
001C71 Ol chiki letter en
001C72 Ol chiki letter err
001C73 Ol chiki letter lo
001C74 Ol chiki letter ott
001C75 Ol chiki letter ob
001C76 Ol chiki letter ov
001C77 Ol chiki letter oh
001C78 Ol chiki mu ttuddag
001C79 Ol chiki gaahlaa ttuddaag
001C7A Ol chiki mu-gaahlaa ttuddaag
001C7B Ol chiki relaa
001C7C Ol chiki phaarkaa
001C7D Ol chiki ahad
001C7E Ol chiki punctuation mucaad
001C7F Ol chiki punctuation double mucaad
001C80 Cyrillic small letter rounded ve
001C81 Cyrillic small letter long-legged de
001C82 Cyrillic small letter narrow o
001C83 Cyrillic small letter wide es
001C84 Cyrillic small letter tall te
001C85 Cyrillic small letter three-legged te
001C86 Cyrillic small letter tall hard sign
001C87 Cyrillic small letter tall yat
001C88 Cyrillic small letter unblended uk
001C90 Georgian mtavruli capital letter an
001C91 Georgian mtavruli capital letter ban
001C92 Georgian mtavruli capital letter gan
001C93 Georgian mtavruli capital letter don
001C94 Georgian mtavruli capital letter en
001C95 Georgian mtavruli capital letter vin
001C96 Georgian mtavruli capital letter zen
001C97 Georgian mtavruli capital letter tan
001C98 Georgian mtavruli capital letter in
001C99 Georgian mtavruli capital letter kan
001C9A Georgian mtavruli capital letter las
001C9B Georgian mtavruli capital letter man
001C9C Georgian mtavruli capital letter nar
001C9D Georgian mtavruli capital letter on
001C9E Georgian mtavruli capital letter par
001C9F Georgian mtavruli capital letter zhar
001CA0 Georgian mtavruli capital letter rae
001CA1 Georgian mtavruli capital letter san
001CA2 Georgian mtavruli capital letter tar
001CA3 Georgian mtavruli capital letter un
001CA4 Georgian mtavruli capital letter phar
001CA5 Georgian mtavruli capital letter khar
001CA6 Georgian mtavruli capital letter ghan
001CA7 Georgian mtavruli capital letter qar
001CA8 Georgian mtavruli capital letter shin
001CA9 Georgian mtavruli capital letter chin
001CAA Georgian mtavruli capital letter can
001CAB Georgian mtavruli capital letter jil
001CAC Georgian mtavruli capital letter cil
001CAD Georgian mtavruli capital letter char
001CAE Georgian mtavruli capital letter xan
001CAF Georgian mtavruli capital letter jhan
001CB0 Georgian mtavruli capital letter hae
001CB1 Georgian mtavruli capital letter he
001CB2 Georgian mtavruli capital letter hie
001CB3 Georgian mtavruli capital letter we
001CB4 Georgian mtavruli capital letter har
001CB5 Georgian mtavruli capital letter hoe
001CB6 Georgian mtavruli capital letter fi
001CB7 Georgian mtavruli capital letter yn
001CB8 Georgian mtavruli capital letter elifi
001CB9 Georgian mtavruli capital letter turned gan
001CBA Georgian mtavruli capital letter ain
001CBD Georgian mtavruli capital letter aen
001CBE Georgian mtavruli capital letter hard sign
001CBF Georgian mtavruli capital letter labial sign
001CC0 Sundanese punctuation bindu surya
001CC1 Sundanese punctuation bindu panglong
001CC2 Sundanese punctuation bindu purnama
001CC3 Sundanese punctuation bindu cakra
001CC4 Sundanese punctuation bindu leu satanga
001CC5 Sundanese punctuation bindu ka satanga
001CC6 Sundanese punctuation bindu da satanga
001CC7 Sundanese punctuation bindu ba satanga
001CD0 Vedic tone karshana
001CD1 Vedic tone shara
001CD2 Vedic tone prenkha
001CD3 Vedic sign nihshvasa
001CD4 Vedic sign yajurvedic midline svarita
001CD5 Vedic tone yajurvedic aggravated independent svarita
001CD6 Vedic tone yajurvedic independent svarita
001CD7 Vedic tone yajurvedic kathaka independent svarita
001CD8 Vedic tone candra below
001CD9 Vedic tone yajurvedic kathaka independent svarita schroeder
001CDA Vedic tone double svarita
001CDB Vedic tone triple svarita
001CDC Vedic tone kathaka anudatta
001CDD Vedic tone dot below
001CDE Vedic tone two dots below
001CDF Vedic tone three dots below
001CE0 Vedic tone rigvedic kashmiri independent svarita
001CE1 Vedic tone atharvavedic independent svarita
001CE2 Vedic sign visarga svarita
001CE3 Vedic sign visarga udatta
001CE4 Vedic sign reversed visarga udatta
001CE5 Vedic sign visarga anudatta
001CE6 Vedic sign reversed visarga anudatta
001CE7 Vedic sign visarga udatta with tail
001CE8 Vedic sign visarga anudatta with tail
001CE9 Vedic sign anusvara antargomukha
001CEA Vedic sign anusvara bahirgomukha
001CEB Vedic sign anusvara vamagomukha
001CEC Vedic sign anusvara vamagomukha with tail
001CED Vedic sign tiryak
001CEE Vedic sign hexiform long anusvara
001CEF Vedic sign long anusvara
001CF0 Vedic sign rthang long anusvara
001CF1 Vedic sign anusvara ubhayato mukha
001CF2 Vedic sign ardhavisarga
001CF3 Vedic sign rotated ardhavisarga
001CF4 Vedic tone candra above
001CF5 Vedic sign jihvamuliya
001CF6 Vedic sign upadhmaniya
001CF7 Vedic sign atikrama
001CF8 Vedic tone ring above
001CF9 Vedic tone double ring above
001CFA Vedic sign double anusvara antargomukha
001D00 Latin letter small capital a
001D01 Latin letter small capital ae
001D02 Latin small letter turned ae
001D03 Latin letter small capital barred b
001D04 Latin letter small capital c
001D05 Latin letter small capital d
001D06 Latin letter small capital eth
001D07 Latin letter small capital e
001D08 Latin small letter turned open e
001D09 Latin small letter turned i
001D0A Latin letter small capital j
001D0B Latin letter small capital k
001D0C Latin letter small capital l with stroke
001D0D Latin letter small capital m
001D0E Latin letter small capital reversed n
001D0F Latin letter small capital o
001D10 Latin letter small capital open o
001D11 Latin small letter sideways o
001D12 Latin small letter sideways open o
001D13 Latin small letter sideways o with stroke
001D14 Latin small letter turned oe
001D15 Latin letter small capital ou
001D16 Latin small letter top half o
001D17 Latin small letter bottom half o
001D18 Latin letter small capital p
001D19 Latin letter small capital reversed r
001D1A Latin letter small capital turned r
001D1B Latin letter small capital t
001D1C Latin letter small capital u
001D1D Latin small letter sideways u
001D1E Latin small letter sideways diaeresized u
001D1F Latin small letter sideways turned m
001D20 Latin letter small capital v
001D21 Latin letter small capital w
001D22 Latin letter small capital z
001D23 Latin letter small capital ezh
001D24 Latin letter voiced laryngeal spirant
001D25 Latin letter ain
001D26 Greek letter small capital gamma
001D27 Greek letter small capital lamda
001D28 Greek letter small capital pi
001D29 Greek letter small capital rho
001D2A Greek letter small capital psi
001D2B Cyrillic letter small capital el
001D2C Modifier letter capital a
001D2D Modifier letter capital ae
001D2E Modifier letter capital b
001D2F Modifier letter capital barred b
001D30 Modifier letter capital d
001D31 Modifier letter capital e
001D32 Modifier letter capital reversed e
001D33 Modifier letter capital g
001D34 Modifier letter capital h
001D35 Modifier letter capital i
001D36 Modifier letter capital j
001D37 Modifier letter capital k
001D38 Modifier letter capital l
001D39 Modifier letter capital m
001D3A Modifier letter capital n
001D3B Modifier letter capital reversed n
001D3C Modifier letter capital o
001D3D Modifier letter capital ou
001D3E Modifier letter capital p
001D3F Modifier letter capital r
001D40 Modifier letter capital t
001D41 Modifier letter capital u
001D42 Modifier letter capital w
001D43 Modifier letter small a
001D44 Modifier letter small turned a
001D45 Modifier letter small alpha
001D46 Modifier letter small turned ae
001D47 Modifier letter small b
001D48 Modifier letter small d
001D49 Modifier letter small e
001D4A Modifier letter small schwa
001D4B Modifier letter small open e
001D4C Modifier letter small turned open e
001D4D Modifier letter small g
001D4E Modifier letter small turned i
001D4F Modifier letter small k
001D50 Modifier letter small m
001D51 Modifier letter small eng
001D52 Modifier letter small o
001D53 Modifier letter small open o
001D54 Modifier letter small top half o
001D55 Modifier letter small bottom half o
001D56 Modifier letter small p
001D57 Modifier letter small t
001D58 Modifier letter small u
001D59 Modifier letter small sideways u
001D5A Modifier letter small turned m
001D5B Modifier letter small v
001D5C Modifier letter small ain
001D5D Modifier letter small beta
001D5E Modifier letter small greek gamma
001D5F Modifier letter small delta
001D60 Modifier letter small greek phi
001D61 Modifier letter small chi
001D62 Latin subscript small letter i
001D63 Latin subscript small letter r
001D64 Latin subscript small letter u
001D65 Latin subscript small letter v
001D66 Greek subscript small letter beta
001D67 Greek subscript small letter gamma
001D68 Greek subscript small letter rho
001D69 Greek subscript small letter phi
001D6A Greek subscript small letter chi
001D6B Latin small letter ue
001D6C Latin small letter b with middle tilde
001D6D Latin small letter d with middle tilde
001D6E Latin small letter f with middle tilde
001D6F Latin small letter m with middle tilde
001D70 Latin small letter n with middle tilde
001D71 Latin small letter p with middle tilde
001D72 Latin small letter r with middle tilde
001D73 Latin small letter r with fishhook and middle tilde
001D74 Latin small letter s with middle tilde
001D75 Latin small letter t with middle tilde
001D76 Latin small letter z with middle tilde
001D77 Latin small letter turned g
001D78 Modifier letter cyrillic en
001D79 Latin small letter insular g
001D7A Latin small letter th with strikethrough
001D7B Latin small capital letter i with stroke
001D7C Latin small letter iota with stroke
001D7D Latin small letter p with stroke
001D7E Latin small capital letter u with stroke
001D7F Latin small letter upsilon with stroke
001D80 Latin small letter b with palatal hook
001D81 Latin small letter d with palatal hook
001D82 Latin small letter f with palatal hook
001D83 Latin small letter g with palatal hook
001D84 Latin small letter k with palatal hook
001D85 Latin small letter l with palatal hook
001D86 Latin small letter m with palatal hook
001D87 Latin small letter n with palatal hook
001D88 Latin small letter p with palatal hook
001D89 Latin small letter r with palatal hook
001D8A Latin small letter s with palatal hook
001D8B Latin small letter esh with palatal hook
001D8C Latin small letter v with palatal hook
001D8D Latin small letter x with palatal hook
001D8E Latin small letter z with palatal hook
001D8F Latin small letter a with retroflex hook
001D90 Latin small letter alpha with retroflex hook
001D91 Latin small letter d with hook and tail
001D92 Latin small letter e with retroflex hook
001D93 Latin small letter open e with retroflex hook
001D94 Latin small letter reversed open e with retroflex hook
001D95 Latin small letter schwa with retroflex hook
001D96 Latin small letter i with retroflex hook
001D97 Latin small letter open o with retroflex hook
001D98 Latin small letter esh with retroflex hook
001D99 Latin small letter u with retroflex hook
001D9A Latin small letter ezh with retroflex hook
001D9B Modifier letter small turned alpha
001D9C Modifier letter small c
001D9D Modifier letter small c with curl
001D9E Modifier letter small eth
001D9F Modifier letter small reversed open e
001DA0 Modifier letter small f
001DA1 Modifier letter small dotless j with stroke
001DA2 Modifier letter small script g
001DA3 Modifier letter small turned h
001DA4 Modifier letter small i with stroke
001DA5 Modifier letter small iota
001DA6 Modifier letter small capital i
001DA7 Modifier letter small capital i with stroke
001DA8 Modifier letter small j with crossed-tail
001DA9 Modifier letter small l with retroflex hook
001DAA Modifier letter small l with palatal hook
001DAB Modifier letter small capital l
001DAC Modifier letter small m with hook
001DAD Modifier letter small turned m with long leg
001DAE Modifier letter small n with left hook
001DAF Modifier letter small n with retroflex hook
001DB0 Modifier letter small capital n
001DB1 Modifier letter small barred o
001DB2 Modifier letter small phi
001DB3 Modifier letter small s with hook
001DB4 Modifier letter small esh
001DB5 Modifier letter small t with palatal hook
001DB6 Modifier letter small u bar
001DB7 Modifier letter small upsilon
001DB8 Modifier letter small capital u
001DB9 Modifier letter small v with hook
001DBA Modifier letter small turned v
001DBB Modifier letter small z
001DBC Modifier letter small z with retroflex hook
001DBD Modifier letter small z with curl
001DBE Modifier letter small ezh
001DBF Modifier letter small theta
001DC0 Combining dotted grave accent
001DC1 Combining dotted acute accent
001DC2 Combining snake below
001DC3 Combining suspension mark
001DC4 Combining macron-acute
001DC5 Combining grave-macron
001DC6 Combining macron-grave
001DC7 Combining acute-macron
001DC8 Combining grave-acute-grave
001DC9 Combining acute-grave-acute
001DCA Combining latin small letter r below
001DCB Combining breve-macron
001DCC Combining macron-breve
001DCD Combining double circumflex above
001DCE Combining ogonek above
001DCF Combining zigzag below
001DD0 Combining is below
001DD1 Combining ur above
001DD2 Combining us above
001DD3 Combining latin small letter flattened open a above
001DD4 Combining latin small letter ae
001DD5 Combining latin small letter ao
001DD6 Combining latin small letter av
001DD7 Combining latin small letter c cedilla
001DD8 Combining latin small letter insular d
001DD9 Combining latin small letter eth
";

pub const NAMES_16: &'static str = "001DDA Combining latin small letter g
001DDB Combining latin letter small capital g
001DDC Combining latin small letter k
001DDD Combining latin small letter l
001DDE Combining latin letter small capital l
001DDF Combining latin letter small capital m
001DE0 Combining latin small letter n
001DE1 Combining latin letter small capital n
001DE2 Combining latin letter small capital r
001DE3 Combining latin small letter r rotunda
001DE4 Combining latin small letter s
001DE5 Combining latin small letter long s
001DE6 Combining latin small letter z
001DE7 Combining latin small letter alpha
001DE8 Combining latin small letter b
001DE9 Combining latin small letter beta
001DEA Combining latin small letter schwa
001DEB Combining latin small letter f
001DEC Combining latin small letter l with double middle tilde
001DED Combining latin small letter o with light centralization stroke
001DEE Combining latin small letter p
001DEF Combining latin small letter esh
001DF0 Combining latin small letter u with light centralization stroke
001DF1 Combining latin small letter w
001DF2 Combining latin small letter a with diaeresis
001DF3 Combining latin small letter o with diaeresis
001DF4 Combining latin small letter u with diaeresis
001DF5 Combining up tack above
001DF6 Combining kavyka above right
001DF7 Combining kavyka above left
001DF8 Combining dot above left
001DF9 Combining wide inverted bridge below
001DFA Combining dot below left
001DFB Combining deletion mark
001DFC Combining double inverted breve below
001DFD Combining almost equal to below
001DFE Combining left arrowhead above
001DFF Combining right arrowhead and down arrowhead below
001E00 Latin capital letter a with ring below
001E01 Latin small letter a with ring below
001E02 Latin capital letter b with dot above
001E03 Latin small letter b with dot above
001E04 Latin capital letter b with dot below
001E05 Latin small letter b with dot below
001E06 Latin capital letter b with line below
001E07 Latin small letter b with line below
001E08 Latin capital letter c with cedilla and acute
001E09 Latin small letter c with cedilla and acute
001E0A Latin capital letter d with dot above
001E0B Latin small letter d with dot above
001E0C Latin capital letter d with dot below
001E0D Latin small letter d with dot below
001E0E Latin capital letter d with line below
001E0F Latin small letter d with line below
001E10 Latin capital letter d with cedilla
001E11 Latin small letter d with cedilla
001E12 Latin capital letter d with circumflex below
001E13 Latin small letter d with circumflex below
001E14 Latin capital letter e with macron and grave
001E15 Latin small letter e with macron and grave
001E16 Latin capital letter e with macron and acute
001E17 Latin small letter e with macron and acute
001E18 Latin capital letter e with circumflex below
001E19 Latin small letter e with circumflex below
001E1A Latin capital letter e with tilde below
001E1B Latin small letter e with tilde below
001E1C Latin capital letter e with cedilla and breve
001E1D Latin small letter e with cedilla and breve
001E1E Latin capital letter f with dot above
001E1F Latin small letter f with dot above
001E20 Latin capital letter g with macron
001E21 Latin small letter g with macron
001E22 Latin capital letter h with dot above
001E23 Latin small letter h with dot above
001E24 Latin capital letter h with dot below
001E25 Latin small letter h with dot below
001E26 Latin capital letter h with diaeresis
001E27 Latin small letter h with diaeresis
001E28 Latin capital letter h with cedilla
001E29 Latin small letter h with cedilla
001E2A Latin capital letter h with breve below
001E2B Latin small letter h with breve below
001E2C Latin capital letter i with tilde below
001E2D Latin small letter i with tilde below
001E2E Latin capital letter i with diaeresis and acute
001E2F Latin small letter i with diaeresis and acute
001E30 Latin capital letter k with acute
001E31 Latin small letter k with acute
001E32 Latin capital letter k with dot below
001E33 Latin small letter k with dot below
001E34 Latin capital letter k with line below
001E35 Latin small letter k with line below
001E36 Latin capital letter l with dot below
001E37 Latin small letter l with dot below
001E38 Latin capital letter l with dot below and macron
001E39 Latin small letter l with dot below and macron
001E3A Latin capital letter l with line below
001E3B Latin small letter l with line below
001E3C Latin capital letter l with circumflex below
001E3D Latin small letter l with circumflex below
001E3E Latin capital letter m with acute
001E3F Latin small letter m with acute
001E40 Latin capital letter m with dot above
001E41 Latin small letter m with dot above
001E42 Latin capital letter m with dot below
001E43 Latin small letter m with dot below
001E44 Latin capital letter n with dot above
001E45 Latin small letter n with dot above
001E46 Latin capital letter n with dot below
001E47 Latin small letter n with dot below
001E48 Latin capital letter n with line below
001E49 Latin small letter n with line below
001E4A Latin capital letter n with circumflex below
001E4B Latin small letter n with circumflex below
001E4C Latin capital letter o with tilde and acute
001E4D Latin small letter o with tilde and acute
001E4E Latin capital letter o with tilde and diaeresis
001E4F Latin small letter o with tilde and diaeresis
001E50 Latin capital letter o with macron and grave
001E51 Latin small letter o with macron and grave
001E52 Latin capital letter o with macron and acute
001E53 Latin small letter o with macron and acute
001E54 Latin capital letter p with acute
001E55 Latin small letter p with acute
001E56 Latin capital letter p with dot above
001E57 Latin small letter p with dot above
001E58 Latin capital letter r with dot above
001E59 Latin small letter r with dot above
001E5A Latin capital letter r with dot below
001E5B Latin small letter r with dot below
001E5C Latin capital letter r with dot below and macron
001E5D Latin small letter r with dot below and macron
001E5E Latin capital letter r with line below
001E5F Latin small letter r with line below
001E60 Latin capital letter s with dot above
001E61 Latin small letter s with dot above
001E62 Latin capital letter s with dot below
001E63 Latin small letter s with dot below
001E64 Latin capital letter s with acute and dot above
001E65 Latin small letter s with acute and dot above
001E66 Latin capital letter s with caron and dot above
001E67 Latin small letter s with caron and dot above
001E68 Latin capital letter s with dot below and dot above
001E69 Latin small letter s with dot below and dot above
001E6A Latin capital letter t with dot above
001E6B Latin small letter t with dot above
001E6C Latin capital letter t with dot below
001E6D Latin small letter t with dot below
001E6E Latin capital letter t with line below
001E6F Latin small letter t with line below
001E70 Latin capital letter t with circumflex below
001E71 Latin small letter t with circumflex below
001E72 Latin capital letter u with diaeresis below
001E73 Latin small letter u with diaeresis below
001E74 Latin capital letter u with tilde below
001E75 Latin small letter u with tilde below
001E76 Latin capital letter u with circumflex below
001E77 Latin small letter u with circumflex below
001E78 Latin capital letter u with tilde and acute
001E79 Latin small letter u with tilde and acute
001E7A Latin capital letter u with macron and diaeresis
001E7B Latin small letter u with macron and diaeresis
001E7C Latin capital letter v with tilde
001E7D Latin small letter v with tilde
001E7E Latin capital letter v with dot below
001E7F Latin small letter v with dot below
001E80 Latin capital letter w with grave
001E81 Latin small letter w with grave
001E82 Latin capital letter w with acute
001E83 Latin small letter w with acute
001E84 Latin capital letter w with diaeresis
001E85 Latin small letter w with diaeresis
001E86 Latin capital letter w with dot above
001E87 Latin small letter w with dot above
001E88 Latin capital letter w with dot below
001E89 Latin small letter w with dot below
001E8A Latin capital letter x with dot above
001E8B Latin small letter x with dot above
001E8C Latin capital letter x with diaeresis
001E8D Latin small letter x with diaeresis
001E8E Latin capital letter y with dot above
001E8F Latin small letter y with dot above
001E90 Latin capital letter z with circumflex
001E91 Latin small letter z with circumflex
001E92 Latin capital letter z with dot below
001E93 Latin small letter z with dot below
001E94 Latin capital letter z with line below
001E95 Latin small letter z with line below
001E96 Latin small letter h with line below
001E97 Latin small letter t with diaeresis
001E98 Latin small letter w with ring above
001E99 Latin small letter y with ring above
001E9A Latin small letter a with right half ring
001E9B Latin small letter long s with dot above
001E9C Latin small letter long s with diagonal stroke
001E9D Latin small letter long s with high stroke
001E9E Latin capital letter sharp s
001E9F Latin small letter delta
001EA0 Latin capital letter a with dot below
001EA1 Latin small letter a with dot below
001EA2 Latin capital letter a with hook above
001EA3 Latin small letter a with hook above
001EA4 Latin capital letter a with circumflex and acute
001EA5 Latin small letter a with circumflex and acute
001EA6 Latin capital letter a with circumflex and grave
001EA7 Latin small letter a with circumflex and grave
001EA8 Latin capital letter a with circumflex and hook above
001EA9 Latin small letter a with circumflex and hook above
001EAA Latin capital letter a with circumflex and tilde
001EAB Latin small letter a with circumflex and tilde
001EAC Latin capital letter a with circumflex and dot below
001EAD Latin small letter a with circumflex and dot below
001EAE Latin capital letter a with breve and acute
001EAF Latin small letter a with breve and acute
001EB0 Latin capital letter a with breve and grave
001EB1 Latin small letter a with breve and grave
001EB2 Latin capital letter a with breve and hook above
001EB3 Latin small letter a with breve and hook above
001EB4 Latin capital letter a with breve and tilde
001EB5 Latin small letter a with breve and tilde
001EB6 Latin capital letter a with breve and dot below
001EB7 Latin small letter a with breve and dot below
001EB8 Latin capital letter e with dot below
001EB9 Latin small letter e with dot below
001EBA Latin capital letter e with hook above
001EBB Latin small letter e with hook above
001EBC Latin capital letter e with tilde
001EBD Latin small letter e with tilde
001EBE Latin capital letter e with circumflex and acute
001EBF Latin small letter e with circumflex and acute
001EC0 Latin capital letter e with circumflex and grave
001EC1 Latin small letter e with circumflex and grave
001EC2 Latin capital letter e with circumflex and hook above
001EC3 Latin small letter e with circumflex and hook above
001EC4 Latin capital letter e with circumflex and tilde
001EC5 Latin small letter e with circumflex and tilde
001EC6 Latin capital letter e with circumflex and dot below
001EC7 Latin small letter e with circumflex and dot below
001EC8 Latin capital letter i with hook above
001EC9 Latin small letter i with hook above
001ECA Latin capital letter i with dot below
001ECB Latin small letter i with dot below
001ECC Latin capital letter o with dot below
001ECD Latin small letter o with dot below
001ECE Latin capital letter o with hook above
001ECF Latin small letter o with hook above
001ED0 Latin capital letter o with circumflex and acute
001ED1 Latin small letter o with circumflex and acute
001ED2 Latin capital letter o with circumflex and grave
001ED3 Latin small letter o with circumflex and grave
001ED4 Latin capital letter o with circumflex and hook above
001ED5 Latin small letter o with circumflex and hook above
001ED6 Latin capital letter o with circumflex and tilde
001ED7 Latin small letter o with circumflex and tilde
001ED8 Latin capital letter o with circumflex and dot below
001ED9 Latin small letter o with circumflex and dot below
001EDA Latin capital letter o with horn and acute
001EDB Latin small letter o with horn and acute
001EDC Latin capital letter o with horn and grave
001EDD Latin small letter o with horn and grave
001EDE Latin capital letter o with horn and hook above
001EDF Latin small letter o with horn and hook above
001EE0 Latin capital letter o with horn and tilde
001EE1 Latin small letter o with horn and tilde
001EE2 Latin capital letter o with horn and dot below
001EE3 Latin small letter o with horn and dot below
001EE4 Latin capital letter u with dot below
001EE5 Latin small letter u with dot below
001EE6 Latin capital letter u with hook above
001EE7 Latin small letter u with hook above
001EE8 Latin capital letter u with horn and acute
001EE9 Latin small letter u with horn and acute
001EEA Latin capital letter u with horn and grave
001EEB Latin small letter u with horn and grave
001EEC Latin capital letter u with horn and hook above
001EED Latin small letter u with horn and hook above
001EEE Latin capital letter u with horn and tilde
001EEF Latin small letter u with horn and tilde
001EF0 Latin capital letter u with horn and dot below
001EF1 Latin small letter u with horn and dot below
001EF2 Latin capital letter y with grave
001EF3 Latin small letter y with grave
001EF4 Latin capital letter y with dot below
001EF5 Latin small letter y with dot below
001EF6 Latin capital letter y with hook above
001EF7 Latin small letter y with hook above
001EF8 Latin capital letter y with tilde
001EF9 Latin small letter y with tilde
001EFA Latin capital letter middle-welsh ll
001EFB Latin small letter middle-welsh ll
001EFC Latin capital letter middle-welsh v
001EFD Latin small letter middle-welsh v
001EFE Latin capital letter y with loop
001EFF Latin small letter y with loop
001F00 Greek small letter alpha with psili
001F01 Greek small letter alpha with dasia
001F02 Greek small letter alpha with psili and varia
";

pub const NAMES_17: &'static str = "001F03 Greek small letter alpha with dasia and varia
001F04 Greek small letter alpha with psili and oxia
001F05 Greek small letter alpha with dasia and oxia
001F06 Greek small letter alpha with psili and perispomeni
001F07 Greek small letter alpha with dasia and perispomeni
001F08 Greek capital letter alpha with psili
001F09 Greek capital letter alpha with dasia
001F0A Greek capital letter alpha with psili and varia
001F0B Greek capital letter alpha with dasia and varia
001F0C Greek capital letter alpha with psili and oxia
001F0D Greek capital letter alpha with dasia and oxia
001F0E Greek capital letter alpha with psili and perispomeni
001F0F Greek capital letter alpha with dasia and perispomeni
001F10 Greek small letter epsilon with psili
001F11 Greek small letter epsilon with dasia
001F12 Greek small letter epsilon with psili and varia
001F13 Greek small letter epsilon with dasia and varia
001F14 Greek small letter epsilon with psili and oxia
001F15 Greek small letter epsilon with dasia and oxia
001F18 Greek capital letter epsilon with psili
001F19 Greek capital letter epsilon with dasia
001F1A Greek capital letter epsilon with psili and varia
001F1B Greek capital letter epsilon with dasia and varia
001F1C Greek capital letter epsilon with psili and oxia
001F1D Greek capital letter epsilon with dasia and oxia
001F20 Greek small letter eta with psili
001F21 Greek small letter eta with dasia
001F22 Greek small letter eta with psili and varia
001F23 Greek small letter eta with dasia and varia
001F24 Greek small letter eta with psili and oxia
001F25 Greek small letter eta with dasia and oxia
001F26 Greek small letter eta with psili and perispomeni
001F27 Greek small letter eta with dasia and perispomeni
001F28 Greek capital letter eta with psili
001F29 Greek capital letter eta with dasia
001F2A Greek capital letter eta with psili and varia
001F2B Greek capital letter eta with dasia and varia
001F2C Greek capital letter eta with psili and oxia
001F2D Greek capital letter eta with dasia and oxia
001F2E Greek capital letter eta with psili and perispomeni
001F2F Greek capital letter eta with dasia and perispomeni
001F30 Greek small letter iota with psili
001F31 Greek small letter iota with dasia
001F32 Greek small letter iota with psili and varia
001F33 Greek small letter iota with dasia and varia
001F34 Greek small letter iota with psili and oxia
001F35 Greek small letter iota with dasia and oxia
001F36 Greek small letter iota with psili and perispomeni
001F37 Greek small letter iota with dasia and perispomeni
001F38 Greek capital letter iota with psili
001F39 Greek capital letter iota with dasia
001F3A Greek capital letter iota with psili and varia
001F3B Greek capital letter iota with dasia and varia
001F3C Greek capital letter iota with psili and oxia
001F3D Greek capital letter iota with dasia and oxia
001F3E Greek capital letter iota with psili and perispomeni
001F3F Greek capital letter iota with dasia and perispomeni
001F40 Greek small letter omicron with psili
001F41 Greek small letter omicron with dasia
001F42 Greek small letter omicron with psili and varia
001F43 Greek small letter omicron with dasia and varia
001F44 Greek small letter omicron with psili and oxia
001F45 Greek small letter omicron with dasia and oxia
001F48 Greek capital letter omicron with psili
001F49 Greek capital letter omicron with dasia
001F4A Greek capital letter omicron with psili and varia
001F4B Greek capital letter omicron with dasia and varia
001F4C Greek capital letter omicron with psili and oxia
001F4D Greek capital letter omicron with dasia and oxia
001F50 Greek small letter upsilon with psili
001F51 Greek small letter upsilon with dasia
001F52 Greek small letter upsilon with psili and varia
001F53 Greek small letter upsilon with dasia and varia
001F54 Greek small letter upsilon with psili and oxia
001F55 Greek small letter upsilon with dasia and oxia
001F56 Greek small letter upsilon with psili and perispomeni
001F57 Greek small letter upsilon with dasia and perispomeni
001F59 Greek capital letter upsilon with dasia
001F5B Greek capital letter upsilon with dasia and varia
001F5D Greek capital letter upsilon with dasia and oxia
001F5F Greek capital letter upsilon with dasia and perispomeni
001F60 Greek small letter omega with psili
001F61 Greek small letter omega with dasia
001F62 Greek small letter omega with psili and varia
001F63 Greek small letter omega with dasia and varia
001F64 Greek small letter omega with psili and oxia
001F65 Greek small letter omega with dasia and oxia
001F66 Greek small letter omega with psili and perispomeni
001F67 Greek small letter omega with dasia and perispomeni
001F68 Greek capital letter omega with psili
001F69 Greek capital letter omega with dasia
001F6A Greek capital letter omega with psili and varia
001F6B Greek capital letter omega with dasia and varia
001F6C Greek capital letter omega with psili and oxia
001F6D Greek capital letter omega with dasia and oxia
001F6E Greek capital letter omega with psili and perispomeni
001F6F Greek capital letter omega with dasia and perispomeni
001F70 Greek small letter alpha with varia
001F71 Greek small letter alpha with oxia
001F72 Greek small letter epsilon with varia
001F73 Greek small letter epsilon with oxia
001F74 Greek small letter eta with varia
001F75 Greek small letter eta with oxia
001F76 Greek small letter iota with varia
001F77 Greek small letter iota with oxia
001F78 Greek small letter omicron with varia
001F79 Greek small letter omicron with oxia
001F7A Greek small letter upsilon with varia
001F7B Greek small letter upsilon with oxia
001F7C Greek small letter omega with varia
001F7D Greek small letter omega with oxia
001F80 Greek small letter alpha with psili and ypogegrammeni
001F81 Greek small letter alpha with dasia and ypogegrammeni
001F82 Greek small letter alpha with psili and varia and ypogegrammeni
001F83 Greek small letter alpha with dasia and varia and ypogegrammeni
001F84 Greek small letter alpha with psili and oxia and ypogegrammeni
001F85 Greek small letter alpha with dasia and oxia and ypogegrammeni
001F86 Greek small letter alpha with psili and perispomeni and ypogegrammeni
001F87 Greek small letter alpha with dasia and perispomeni and ypogegrammeni
001F88 Greek capital letter alpha with psili and prosgegrammeni
001F89 Greek capital letter alpha with dasia and prosgegrammeni
001F8A Greek capital letter alpha with psili and varia and prosgegrammeni
001F8B Greek capital letter alpha with dasia and varia and prosgegrammeni
001F8C Greek capital letter alpha with psili and oxia and prosgegrammeni
001F8D Greek capital letter alpha with dasia and oxia and prosgegrammeni
001F8E Greek capital letter alpha with psili and perispomeni and prosgegrammeni
001F8F Greek capital letter alpha with dasia and perispomeni and prosgegrammeni
001F90 Greek small letter eta with psili and ypogegrammeni
001F91 Greek small letter eta with dasia and ypogegrammeni
001F92 Greek small letter eta with psili and varia and ypogegrammeni
001F93 Greek small letter eta with dasia and varia and ypogegrammeni
001F94 Greek small letter eta with psili and oxia and ypogegrammeni
001F95 Greek small letter eta with dasia and oxia and ypogegrammeni
001F96 Greek small letter eta with psili and perispomeni and ypogegrammeni
001F97 Greek small letter eta with dasia and perispomeni and ypogegrammeni
001F98 Greek capital letter eta with psili and prosgegrammeni
001F99 Greek capital letter eta with dasia and prosgegrammeni
001F9A Greek capital letter eta with psili and varia and prosgegrammeni
001F9B Greek capital letter eta with dasia and varia and prosgegrammeni
001F9C Greek capital letter eta with psili and oxia and prosgegrammeni
001F9D Greek capital letter eta with dasia and oxia and prosgegrammeni
001F9E Greek capital letter eta with psili and perispomeni and prosgegrammeni
001F9F Greek capital letter eta with dasia and perispomeni and prosgegrammeni
001FA0 Greek small letter omega with psili and ypogegrammeni
001FA1 Greek small letter omega with dasia and ypogegrammeni
001FA2 Greek small letter omega with psili and varia and ypogegrammeni
001FA3 Greek small letter omega with dasia and varia and ypogegrammeni
001FA4 Greek small letter omega with psili and oxia and ypogegrammeni
001FA5 Greek small letter omega with dasia and oxia and ypogegrammeni
001FA6 Greek small letter omega with psili and perispomeni and ypogegrammeni
001FA7 Greek small letter omega with dasia and perispomeni and ypogegrammeni
001FA8 Greek capital letter omega with psili and prosgegrammeni
001FA9 Greek capital letter omega with dasia and prosgegrammeni
001FAA Greek capital letter omega with psili and varia and prosgegrammeni
001FAB Greek capital letter omega with dasia and varia and prosgegrammeni
001FAC Greek capital letter omega with psili and oxia and prosgegrammeni
001FAD Greek capital letter omega with dasia and oxia and prosgegrammeni
001FAE Greek capital letter omega with psili and perispomeni and prosgegrammeni
001FAF Greek capital letter omega with dasia and perispomeni and prosgegrammeni
001FB0 Greek small letter alpha with vrachy
001FB1 Greek small letter alpha with macron
001FB2 Greek small letter alpha with varia and ypogegrammeni
001FB3 Greek small letter alpha with ypogegrammeni
001FB4 Greek small letter alpha with oxia and ypogegrammeni
001FB6 Greek small letter alpha with perispomeni
001FB7 Greek small letter alpha with perispomeni and ypogegrammeni
001FB8 Greek capital letter alpha with vrachy
001FB9 Greek capital letter alpha with macron
001FBA Greek capital letter alpha with varia
001FBB Greek capital letter alpha with oxia
001FBC Greek capital letter alpha with prosgegrammeni
001FBD Greek koronis
001FBE Greek prosgegrammeni
001FBF Greek psili
001FC0 Greek perispomeni
001FC1 Greek dialytika and perispomeni
001FC2 Greek small letter eta with varia and ypogegrammeni
001FC3 Greek small letter eta with ypogegrammeni
001FC4 Greek small letter eta with oxia and ypogegrammeni
001FC6 Greek small letter eta with perispomeni
001FC7 Greek small letter eta with perispomeni and ypogegrammeni
001FC8 Greek capital letter epsilon with varia
001FC9 Greek capital letter epsilon with oxia
001FCA Greek capital letter eta with varia
001FCB Greek capital letter eta with oxia
001FCC Greek capital letter eta with prosgegrammeni
001FCD Greek psili and varia
001FCE Greek psili and oxia
001FCF Greek psili and perispomeni
001FD0 Greek small letter iota with vrachy
001FD1 Greek small letter iota with macron
001FD2 Greek small letter iota with dialytika and varia
001FD3 Greek small letter iota with dialytika and oxia
001FD6 Greek small letter iota with perispomeni
001FD7 Greek small letter iota with dialytika and perispomeni
001FD8 Greek capital letter iota with vrachy
001FD9 Greek capital letter iota with macron
001FDA Greek capital letter iota with varia
001FDB Greek capital letter iota with oxia
001FDD Greek dasia and varia
001FDE Greek dasia and oxia
001FDF Greek dasia and perispomeni
001FE0 Greek small letter upsilon with vrachy
001FE1 Greek small letter upsilon with macron
001FE2 Greek small letter upsilon with dialytika and varia
001FE3 Greek small letter upsilon with dialytika and oxia
001FE4 Greek small letter rho with psili
001FE5 Greek small letter rho with dasia
001FE6 Greek small letter upsilon with perispomeni
001FE7 Greek small letter upsilon with dialytika and perispomeni
001FE8 Greek capital letter upsilon with vrachy
001FE9 Greek capital letter upsilon with macron
001FEA Greek capital letter upsilon with varia
001FEB Greek capital letter upsilon with oxia
001FEC Greek capital letter rho with dasia
001FED Greek dialytika and varia
001FEE Greek dialytika and oxia
001FEF Greek varia
001FF2 Greek small letter omega with varia and ypogegrammeni
001FF3 Greek small letter omega with ypogegrammeni
001FF4 Greek small letter omega with oxia and ypogegrammeni
001FF6 Greek small letter omega with perispomeni
001FF7 Greek small letter omega with perispomeni and ypogegrammeni
001FF8 Greek capital letter omicron with varia
001FF9 Greek capital letter omicron with oxia
001FFA Greek capital letter omega with varia
001FFB Greek capital letter omega with oxia
001FFC Greek capital letter omega with prosgegrammeni
001FFD Greek oxia
001FFE Greek dasia
002000 En quad
002001 Em quad
002002 En space
002003 Em space
002004 Three-per-em space
002005 Four-per-em space
002006 Six-per-em space
002007 Figure space
002008 Punctuation space
002009 Thin space
00200A Hair space
00200B Zero width space
00200C Zero width non-joiner
00200D Zero width joiner
00200E Left-to-right mark
00200F Right-to-left mark
002010 Hyphen
002011 Non-breaking hyphen
002012 Figure dash
002013 En dash
002014 Em dash
002015 Horizontal bar
002016 Double vertical line
002017 Double low line
002018 Left single quotation mark
002019 Right single quotation mark
00201A Single low-9 quotation mark
00201B Single high-reversed-9 quotation mark
00201C Left double quotation mark
00201D Right double quotation mark
00201E Double low-9 quotation mark
00201F Double high-reversed-9 quotation mark
002020 Dagger
002021 Double dagger
002022 Bullet
002023 Triangular bullet
002024 One dot leader
002025 Two dot leader
002026 Horizontal ellipsis
002027 Hyphenation point
002028 Line separator
002029 Paragraph separator
00202A Left-to-right embedding
00202B Right-to-left embedding
00202C Pop directional formatting
00202D Left-to-right override
00202E Right-to-left override
00202F Narrow no-break space
002030 Per mille sign
002031 Per ten thousand sign
002032 Prime
002033 Double prime
002034 Triple prime
002035 Reversed prime
002036 Reversed double prime
002037 Reversed triple prime
002038 Caret
002039 Single left-pointing angle quotation mark
00203A Single right-pointing angle quotation mark
00203B Reference mark
00203C Double exclamation mark
00203D Interrobang
00203E Overline
00203F Undertie
002040 Character tie
002041 Caret insertion point
002042 Asterism
002043 Hyphen bullet
";

pub const NAMES_18: &'static str = "002044 Fraction slash
002045 Left square bracket with quill
002046 Right square bracket with quill
002047 Double question mark
002048 Question exclamation mark
002049 Exclamation question mark
00204A Tironian sign et
00204B Reversed pilcrow sign
00204C Black leftwards bullet
00204D Black rightwards bullet
00204E Low asterisk
00204F Reversed semicolon
002050 Close up
002051 Two asterisks aligned vertically
002052 Commercial minus sign
002053 Swung dash
002054 Inverted undertie
002055 Flower punctuation mark
002056 Three dot punctuation
002057 Quadruple prime
002058 Four dot punctuation
002059 Five dot punctuation
00205A Two dot punctuation
00205B Four dot mark
00205C Dotted cross
00205D Tricolon
00205E Vertical four dots
00205F Medium mathematical space
002060 Word joiner
002061 Function application
002062 Invisible times
002063 Invisible separator
002064 Invisible plus
002066 Left-to-right isolate
002067 Right-to-left isolate
002068 First strong isolate
002069 Pop directional isolate
00206A Inhibit symmetric swapping
00206B Activate symmetric swapping
00206C Inhibit arabic form shaping
00206D Activate arabic form shaping
00206E National digit shapes
00206F Nominal digit shapes
002070 Superscript zero
002071 Superscript latin small letter i
002074 Superscript four
002075 Superscript five
002076 Superscript six
002077 Superscript seven
002078 Superscript eight
002079 Superscript nine
00207A Superscript plus sign
00207B Superscript minus
00207C Superscript equals sign
00207D Superscript left parenthesis
00207E Superscript right parenthesis
00207F Superscript latin small letter n
002080 Subscript zero
002081 Subscript one
002082 Subscript two
002083 Subscript three
002084 Subscript four
002085 Subscript five
002086 Subscript six
002087 Subscript seven
002088 Subscript eight
002089 Subscript nine
00208A Subscript plus sign
00208B Subscript minus
00208C Subscript equals sign
00208D Subscript left parenthesis
00208E Subscript right parenthesis
002090 Latin subscript small letter a
002091 Latin subscript small letter e
002092 Latin subscript small letter o
002093 Latin subscript small letter x
002094 Latin subscript small letter schwa
002095 Latin subscript small letter h
002096 Latin subscript small letter k
002097 Latin subscript small letter l
002098 Latin subscript small letter m
002099 Latin subscript small letter n
00209A Latin subscript small letter p
00209B Latin subscript small letter s
00209C Latin subscript small letter t
0020A0 Euro-currency sign
0020A1 Colon sign
0020A2 Cruzeiro sign
0020A3 French franc sign
0020A4 Lira sign
0020A5 Mill sign
0020A6 Naira sign
0020A7 Peseta sign
0020A8 Rupee sign
0020A9 Won sign
0020AA New sheqel sign
0020AB Dong sign
0020AC Euro sign
0020AD Kip sign
0020AE Tugrik sign
0020AF Drachma sign
0020B0 German penny sign
0020B1 Peso sign
0020B2 Guarani sign
0020B3 Austral sign
0020B4 Hryvnia sign
0020B5 Cedi sign
0020B6 Livre tournois sign
0020B7 Spesmilo sign
0020B8 Tenge sign
0020B9 Indian rupee sign
0020BA Turkish lira sign
0020BB Nordic mark sign
0020BC Manat sign
0020BD Ruble sign
0020BE Lari sign
0020BF Bitcoin sign
0020C0 Som sign
0020D0 Combining left harpoon above
0020D1 Combining right harpoon above
0020D2 Combining long vertical line overlay
0020D3 Combining short vertical line overlay
0020D4 Combining anticlockwise arrow above
0020D5 Combining clockwise arrow above
0020D6 Combining left arrow above
0020D7 Combining right arrow above
0020D8 Combining ring overlay
0020D9 Combining clockwise ring overlay
0020DA Combining anticlockwise ring overlay
0020DB Combining three dots above
0020DC Combining four dots above
0020DD Combining enclosing circle
0020DE Combining enclosing square
0020DF Combining enclosing diamond
0020E0 Combining enclosing circle backslash
0020E1 Combining left right arrow above
0020E2 Combining enclosing screen
0020E3 Combining enclosing keycap
0020E4 Combining enclosing upward pointing triangle
0020E5 Combining reverse solidus overlay
0020E6 Combining double vertical stroke overlay
0020E7 Combining annuity symbol
0020E8 Combining triple underdot
0020E9 Combining wide bridge above
0020EA Combining leftwards arrow overlay
0020EB Combining long double solidus overlay
0020EC Combining rightwards harpoon with barb downwards
0020ED Combining leftwards harpoon with barb downwards
0020EE Combining left arrow below
0020EF Combining right arrow below
0020F0 Combining asterisk above
002100 Account of
002101 Addressed to the subject
002102 Double-struck capital c
002103 Degree celsius
002104 Centre line symbol
002105 Care of
002106 Cada una
002107 Euler constant
002108 Scruple
002109 Degree fahrenheit
00210A Script small g
00210B Script capital h
00210C Black-letter capital h
00210D Double-struck capital h
00210E Planck constant
00210F Planck constant over two pi
002110 Script capital i
002111 Black-letter capital i
002112 Script capital l
002113 Script small l
002114 L b bar symbol
002115 Double-struck capital n
002116 Numero sign
002117 Sound recording copyright
002118 Script capital p
002119 Double-struck capital p
00211A Double-struck capital q
00211B Script capital r
00211C Black-letter capital r
00211D Double-struck capital r
00211E Prescription take
00211F Response
002120 Service mark
002121 Telephone sign
002122 Trade mark sign
002123 Versicle
002124 Double-struck capital z
002125 Ounce sign
002126 Ohm sign
002127 Inverted ohm sign
002128 Black-letter capital z
002129 Turned greek small letter iota
00212A Kelvin sign
00212B Angstrom sign
00212C Script capital b
00212D Black-letter capital c
00212E Estimated symbol
00212F Script small e
002130 Script capital e
002131 Script capital f
002132 Turned capital f
002133 Script capital m
002134 Script small o
002135 Alef symbol
002136 Bet symbol
002137 Gimel symbol
002138 Dalet symbol
002139 Information source
00213A Rotated capital q
00213B Facsimile sign
00213C Double-struck small pi
00213D Double-struck small gamma
00213E Double-struck capital gamma
00213F Double-struck capital pi
002140 Double-struck n-ary summation
002141 Turned sans-serif capital g
002142 Turned sans-serif capital l
002143 Reversed sans-serif capital l
002144 Turned sans-serif capital y
002145 Double-struck italic capital d
002146 Double-struck italic small d
002147 Double-struck italic small e
002148 Double-struck italic small i
002149 Double-struck italic small j
00214A Property line
00214B Turned ampersand
00214C Per sign
00214D Aktieselskab
00214E Turned small f
00214F Symbol for samaritan source
002150 Vulgar fraction one seventh
002151 Vulgar fraction one ninth
002152 Vulgar fraction one tenth
002153 Vulgar fraction one third
002154 Vulgar fraction two thirds
002155 Vulgar fraction one fifth
002156 Vulgar fraction two fifths
002157 Vulgar fraction three fifths
002158 Vulgar fraction four fifths
002159 Vulgar fraction one sixth
00215A Vulgar fraction five sixths
00215B Vulgar fraction one eighth
00215C Vulgar fraction three eighths
00215D Vulgar fraction five eighths
00215E Vulgar fraction seven eighths
00215F Fraction numerator one
002160 Roman numeral one
002161 Roman numeral two
002162 Roman numeral three
002163 Roman numeral four
002164 Roman numeral five
002165 Roman numeral six
002166 Roman numeral seven
002167 Roman numeral eight
002168 Roman numeral nine
002169 Roman numeral ten
00216A Roman numeral eleven
00216B Roman numeral twelve
00216C Roman numeral fifty
00216D Roman numeral one hundred
00216E Roman numeral five hundred
00216F Roman numeral one thousand
002170 Small roman numeral one
002171 Small roman numeral two
002172 Small roman numeral three
002173 Small roman numeral four
002174 Small roman numeral five
002175 Small roman numeral six
002176 Small roman numeral seven
002177 Small roman numeral eight
002178 Small roman numeral nine
002179 Small roman numeral ten
00217A Small roman numeral eleven
00217B Small roman numeral twelve
00217C Small roman numeral fifty
00217D Small roman numeral one hundred
00217E Small roman numeral five hundred
00217F Small roman numeral one thousand
002180 Roman numeral one thousand c d
002181 Roman numeral five thousand
002182 Roman numeral ten thousand
002183 Roman numeral reversed one hundred
002184 Latin small letter reversed c
002185 Roman numeral six late form
002186 Roman numeral fifty early form
002187 Roman numeral fifty thousand
002188 Roman numeral one hundred thousand
002189 Vulgar fraction zero thirds
00218A Turned digit two
00218B Turned digit three
002190 Leftwards arrow
002191 Upwards arrow
002192 Rightwards arrow
002193 Downwards arrow
002194 Left right arrow
002195 Up down arrow
002196 North west arrow
002197 North east arrow
002198 South east arrow
002199 South west arrow
00219A Leftwards arrow with stroke
00219B Rightwards arrow with stroke
00219C Leftwards wave arrow
00219D Rightwards wave arrow
00219E Leftwards two headed arrow
00219F Upwards two headed arrow
0021A0 Rightwards two headed arrow
0021A1 Downwards two headed arrow
0021A2 Leftwards arrow with tail
0021A3 Rightwards arrow with tail
0021A4 Leftwards arrow from bar
0021A5 Upwards arrow from bar
0021A6 Rightwards arrow from bar
0021A7 Downwards arrow from bar
0021A8 Up down arrow with base
0021A9 Leftwards arrow with hook
0021AA Rightwards arrow with hook
0021AB Leftwards arrow with loop
0021AC Rightwards arrow with loop
0021AD Left right wave arrow
0021AE Left right arrow with stroke
0021AF Downwards zigzag arrow
0021B0 Upwards arrow with tip leftwards
0021B1 Upwards arrow with tip rightwards
0021B2 Downwards arrow with tip leftwards
0021B3 Downwards arrow with tip rightwards
0021B4 Rightwards arrow with corner downwards
0021B5 Downwards arrow with corner leftwards
0021B6 Anticlockwise top semicircle arrow
0021B7 Clockwise top semicircle arrow
0021B8 North west arrow to long bar
0021B9 Leftwards arrow to bar over rightwards arrow to bar
0021BA Anticlockwise open circle arrow
0021BB Clockwise open circle arrow
0021BC Leftwards harpoon with barb upwards
0021BD Leftwards harpoon with barb downwards
0021BE Upwards harpoon with barb rightwards
0021BF Upwards harpoon with barb leftwards
0021C0 Rightwards harpoon with barb upwards
0021C1 Rightwards harpoon with barb downwards
0021C2 Downwards harpoon with barb rightwards
0021C3 Downwards harpoon with barb leftwards
0021C4 Rightwards arrow over leftwards arrow
0021C5 Upwards arrow leftwards of downwards arrow
0021C6 Leftwards arrow over rightwards arrow
0021C7 Leftwards paired arrows
0021C8 Upwards paired arrows
0021C9 Rightwards paired arrows
0021CA Downwards paired arrows
0021CB Leftwards harpoon over rightwards harpoon
0021CC Rightwards harpoon over leftwards harpoon
0021CD Leftwards double arrow with stroke
0021CE Left right double arrow with stroke
0021CF Rightwards double arrow with stroke
0021D0 Leftwards double arrow
0021D1 Upwards double arrow
0021D2 Rightwards double arrow
0021D3 Downwards double arrow
0021D4 Left right double arrow
0021D5 Up down double arrow
0021D6 North west double arrow
0021D7 North east double arrow
0021D8 South east double arrow
0021D9 South west double arrow
0021DA Leftwards triple arrow
0021DB Rightwards triple arrow
0021DC Leftwards squiggle arrow
0021DD Rightwards squiggle arrow
0021DE Upwards arrow with double stroke
0021DF Downwards arrow with double stroke
0021E0 Leftwards dashed arrow
0021E1 Upwards dashed arrow
0021E2 Rightwards dashed arrow
0021E3 Downwards dashed arrow
0021E4 Leftwards arrow to bar
0021E5 Rightwards arrow to bar
0021E6 Leftwards white arrow
0021E7 Upwards white arrow
0021E8 Rightwards white arrow
0021E9 Downwards white arrow
0021EA Upwards white arrow from bar
0021EB Upwards white arrow on pedestal
0021EC Upwards white arrow on pedestal with horizontal bar
0021ED Upwards white arrow on pedestal with vertical bar
0021EE Upwards white double arrow
0021EF Upwards white double arrow on pedestal
0021F0 Rightwards white arrow from wall
0021F1 North west arrow to corner
0021F2 South east arrow to corner
0021F3 Up down white arrow
0021F4 Right arrow with small circle
0021F5 Downwards arrow leftwards of upwards arrow
0021F6 Three rightwards arrows
0021F7 Leftwards arrow with vertical stroke
0021F8 Rightwards arrow with vertical stroke
0021F9 Left right arrow with vertical stroke
0021FA Leftwards arrow with double vertical stroke
0021FB Rightwards arrow with double vertical stroke
0021FC Left right arrow with double vertical stroke
0021FD Leftwards open-headed arrow
0021FE Rightwards open-headed arrow
0021FF Left right open-headed arrow
002200 For all
002201 Complement
002202 Partial differential
002203 There exists
002204 There does not exist
002205 Empty set
002206 Increment
002207 Nabla
002208 Element of
002209 Not an element of
00220A Small element of
00220B Contains as member
00220C Does not contain as member
00220D Small contains as member
00220E End of proof
00220F N-ary product
002210 N-ary coproduct
002211 N-ary summation
002212 Minus sign
002213 Minus-or-plus sign
002214 Dot plus
002215 Division slash
002216 Set minus
002217 Asterisk operator
002218 Ring operator
002219 Bullet operator
00221A Square root
00221B Cube root
00221C Fourth root
00221D Proportional to
00221E Infinity
00221F Right angle
002220 Angle
002221 Measured angle
002222 Spherical angle
002223 Divides
002224 Does not divide
002225 Parallel to
002226 Not parallel to
002227 Logical and
002228 Logical or
002229 Intersection
00222A Union
00222B Integral
00222C Double integral
00222D Triple integral
00222E Contour integral
00222F Surface integral
002230 Volume integral
002231 Clockwise integral
002232 Clockwise contour integral
002233 Anticlockwise contour integral
002234 Therefore
002235 Because
002236 Ratio
002237 Proportion
002238 Dot minus
002239 Excess
00223A Geometric proportion
00223B Homothetic
00223C Tilde operator
00223D Reversed tilde
00223E Inverted lazy s
00223F Sine wave
002240 Wreath product
002241 Not tilde
002242 Minus tilde
002243 Asymptotically equal to
002244 Not asymptotically equal to
002245 Approximately equal to
";

pub const NAMES_19: &'static str = "002246 Approximately but not actually equal to
002247 Neither approximately nor actually equal to
002248 Almost equal to
002249 Not almost equal to
00224A Almost equal or equal to
00224B Triple tilde
00224C All equal to
00224D Equivalent to
00224E Geometrically equivalent to
00224F Difference between
002250 Approaches the limit
002251 Geometrically equal to
002252 Approximately equal to or the image of
002253 Image of or approximately equal to
002254 Colon equals
002255 Equals colon
002256 Ring in equal to
002257 Ring equal to
002258 Corresponds to
002259 Estimates
00225A Equiangular to
00225B Star equals
00225C Delta equal to
00225D Equal to by definition
00225E Measured by
00225F Questioned equal to
002260 Not equal to
002261 Identical to
002262 Not identical to
002263 Strictly equivalent to
002264 Less-than or equal to
002265 Greater-than or equal to
002266 Less-than over equal to
002267 Greater-than over equal to
002268 Less-than but not equal to
002269 Greater-than but not equal to
00226A Much less-than
00226B Much greater-than
00226C Between
00226D Not equivalent to
00226E Not less-than
00226F Not greater-than
002270 Neither less-than nor equal to
002271 Neither greater-than nor equal to
002272 Less-than or equivalent to
002273 Greater-than or equivalent to
002274 Neither less-than nor equivalent to
002275 Neither greater-than nor equivalent to
002276 Less-than or greater-than
002277 Greater-than or less-than
002278 Neither less-than nor greater-than
002279 Neither greater-than nor less-than
00227A Precedes
00227B Succeeds
00227C Precedes or equal to
00227D Succeeds or equal to
00227E Precedes or equivalent to
00227F Succeeds or equivalent to
002280 Does not precede
002281 Does not succeed
002282 Subset of
002283 Superset of
002284 Not a subset of
002285 Not a superset of
002286 Subset of or equal to
002287 Superset of or equal to
002288 Neither a subset of nor equal to
002289 Neither a superset of nor equal to
00228A Subset of with not equal to
00228B Superset of with not equal to
00228C Multiset
00228D Multiset multiplication
00228E Multiset union
00228F Square image of
002290 Square original of
002291 Square image of or equal to
002292 Square original of or equal to
002293 Square cap
002294 Square cup
002295 Circled plus
002296 Circled minus
002297 Circled times
002298 Circled division slash
002299 Circled dot operator
00229A Circled ring operator
00229B Circled asterisk operator
00229C Circled equals
00229D Circled dash
00229E Squared plus
00229F Squared minus
0022A0 Squared times
0022A1 Squared dot operator
0022A2 Right tack
0022A3 Left tack
0022A4 Down tack
0022A5 Up tack
0022A6 Assertion
0022A7 Models
0022A8 True
0022A9 Forces
0022AA Triple vertical bar right turnstile
0022AB Double vertical bar double right turnstile
0022AC Does not prove
0022AD Not true
0022AE Does not force
0022AF Negated double vertical bar double right turnstile
0022B0 Precedes under relation
0022B1 Succeeds under relation
0022B2 Normal subgroup of
0022B3 Contains as normal subgroup
0022B4 Normal subgroup of or equal to
0022B5 Contains as normal subgroup or equal to
0022B6 Original of
0022B7 Image of
0022B8 Multimap
0022B9 Hermitian conjugate matrix
0022BA Intercalate
0022BB Xor
0022BC Nand
0022BD Nor
0022BE Right angle with arc
0022BF Right triangle
0022C0 N-ary logical and
0022C1 N-ary logical or
0022C2 N-ary intersection
0022C3 N-ary union
0022C4 Diamond operator
0022C5 Dot operator
0022C6 Star operator
0022C7 Division times
0022C8 Bowtie
0022C9 Left normal factor semidirect product
0022CA Right normal factor semidirect product
0022CB Left semidirect product
0022CC Right semidirect product
0022CD Reversed tilde equals
0022CE Curly logical or
0022CF Curly logical and
0022D0 Double subset
0022D1 Double superset
0022D2 Double intersection
0022D3 Double union
0022D4 Pitchfork
0022D5 Equal and parallel to
0022D6 Less-than with dot
0022D7 Greater-than with dot
0022D8 Very much less-than
0022D9 Very much greater-than
0022DA Less-than equal to or greater-than
0022DB Greater-than equal to or less-than
0022DC Equal to or less-than
0022DD Equal to or greater-than
0022DE Equal to or precedes
0022DF Equal to or succeeds
0022E0 Does not precede or equal
0022E1 Does not succeed or equal
0022E2 Not square image of or equal to
0022E3 Not square original of or equal to
0022E4 Square image of or not equal to
0022E5 Square original of or not equal to
0022E6 Less-than but not equivalent to
0022E7 Greater-than but not equivalent to
0022E8 Precedes but not equivalent to
0022E9 Succeeds but not equivalent to
0022EA Not normal subgroup of
0022EB Does not contain as normal subgroup
0022EC Not normal subgroup of or equal to
0022ED Does not contain as normal subgroup or equal
0022EE Vertical ellipsis
0022EF Midline horizontal ellipsis
0022F0 Up right diagonal ellipsis
0022F1 Down right diagonal ellipsis
0022F2 Element of with long horizontal stroke
0022F3 Element of with vertical bar at end of horizontal stroke
0022F4 Small element of with vertical bar at end of horizontal stroke
0022F5 Element of with dot above
0022F6 Element of with overbar
0022F7 Small element of with overbar
0022F8 Element of with underbar
0022F9 Element of with two horizontal strokes
0022FA Contains with long horizontal stroke
0022FB Contains with vertical bar at end of horizontal stroke
0022FC Small contains with vertical bar at end of horizontal stroke
0022FD Contains with overbar
0022FE Small contains with overbar
0022FF Z notation bag membership
002300 Diameter sign
002301 Electric arrow
002302 House
002303 Up arrowhead
002304 Down arrowhead
002305 Projective
002306 Perspective
002307 Wavy line
002308 Left ceiling
002309 Right ceiling
00230A Left floor
00230B Right floor
00230C Bottom right crop
00230D Bottom left crop
00230E Top right crop
00230F Top left crop
002310 Reversed not sign
002311 Square lozenge
002312 Arc
002313 Segment
002314 Sector
002315 Telephone recorder
002316 Position indicator
002317 Viewdata square
002318 Place of interest sign
002319 Turned not sign
00231A Watch
00231B Hourglass
00231C Top left corner
00231D Top right corner
00231E Bottom left corner
00231F Bottom right corner
002320 Top half integral
002321 Bottom half integral
002322 Frown
002323 Smile
002324 Up arrowhead between two horizontal bars
002325 Option key
002326 Erase to the right
002327 X in a rectangle box
002328 Keyboard
002329 Left-pointing angle bracket
00232A Right-pointing angle bracket
00232B Erase to the left
00232C Benzene ring
00232D Cylindricity
00232E All around-profile
00232F Symmetry
002330 Total runout
002331 Dimension origin
002332 Conical taper
002333 Slope
002334 Counterbore
002335 Countersink
002336 Apl functional symbol i-beam
002337 Apl functional symbol squish quad
002338 Apl functional symbol quad equal
002339 Apl functional symbol quad divide
00233A Apl functional symbol quad diamond
00233B Apl functional symbol quad jot
00233C Apl functional symbol quad circle
00233D Apl functional symbol circle stile
00233E Apl functional symbol circle jot
00233F Apl functional symbol slash bar
002340 Apl functional symbol backslash bar
002341 Apl functional symbol quad slash
002342 Apl functional symbol quad backslash
002343 Apl functional symbol quad less-than
002344 Apl functional symbol quad greater-than
002345 Apl functional symbol leftwards vane
002346 Apl functional symbol rightwards vane
002347 Apl functional symbol quad leftwards arrow
002348 Apl functional symbol quad rightwards arrow
002349 Apl functional symbol circle backslash
00234A Apl functional symbol down tack underbar
00234B Apl functional symbol delta stile
00234C Apl functional symbol quad down caret
00234D Apl functional symbol quad delta
00234E Apl functional symbol down tack jot
00234F Apl functional symbol upwards vane
002350 Apl functional symbol quad upwards arrow
002351 Apl functional symbol up tack overbar
002352 Apl functional symbol del stile
002353 Apl functional symbol quad up caret
002354 Apl functional symbol quad del
002355 Apl functional symbol up tack jot
002356 Apl functional symbol downwards vane
002357 Apl functional symbol quad downwards arrow
002358 Apl functional symbol quote underbar
002359 Apl functional symbol delta underbar
00235A Apl functional symbol diamond underbar
00235B Apl functional symbol jot underbar
00235C Apl functional symbol circle underbar
00235D Apl functional symbol up shoe jot
00235E Apl functional symbol quote quad
00235F Apl functional symbol circle star
002360 Apl functional symbol quad colon
002361 Apl functional symbol up tack diaeresis
002362 Apl functional symbol del diaeresis
002363 Apl functional symbol star diaeresis
002364 Apl functional symbol jot diaeresis
002365 Apl functional symbol circle diaeresis
002366 Apl functional symbol down shoe stile
002367 Apl functional symbol left shoe stile
002368 Apl functional symbol tilde diaeresis
002369 Apl functional symbol greater-than diaeresis
00236A Apl functional symbol comma bar
00236B Apl functional symbol del tilde
00236C Apl functional symbol zilde
00236D Apl functional symbol stile tilde
00236E Apl functional symbol semicolon underbar
00236F Apl functional symbol quad not equal
002370 Apl functional symbol quad question
002371 Apl functional symbol down caret tilde
002372 Apl functional symbol up caret tilde
002373 Apl functional symbol iota
002374 Apl functional symbol rho
002375 Apl functional symbol omega
002376 Apl functional symbol alpha underbar
002377 Apl functional symbol epsilon underbar
002378 Apl functional symbol iota underbar
002379 Apl functional symbol omega underbar
00237A Apl functional symbol alpha
00237B Not check mark
00237C Right angle with downwards zigzag arrow
00237D Shouldered open box
00237E Bell symbol
00237F Vertical line with middle dot
002380 Insertion symbol
002381 Continuous underline symbol
002382 Discontinuous underline symbol
002383 Emphasis symbol
002384 Composition symbol
002385 White square with centre vertical line
002386 Enter symbol
002387 Alternative key symbol
002388 Helm symbol
002389 Circled horizontal bar with notch
00238A Circled triangle down
00238B Broken circle with northwest arrow
00238C Undo symbol
00238D Monostable symbol
00238E Hysteresis symbol
00238F Open-circuit-output h-type symbol
002390 Open-circuit-output l-type symbol
002391 Passive-pull-down-output symbol
002392 Passive-pull-up-output symbol
002393 Direct current symbol form two
002394 Software-function symbol
002395 Apl functional symbol quad
002396 Decimal separator key symbol
002397 Previous page
002398 Next page
002399 Print screen symbol
00239A Clear screen symbol
00239B Left parenthesis upper hook
00239C Left parenthesis extension
00239D Left parenthesis lower hook
00239E Right parenthesis upper hook
00239F Right parenthesis extension
0023A0 Right parenthesis lower hook
0023A1 Left square bracket upper corner
0023A2 Left square bracket extension
0023A3 Left square bracket lower corner
0023A4 Right square bracket upper corner
0023A5 Right square bracket extension
0023A6 Right square bracket lower corner
0023A7 Left curly bracket upper hook
0023A8 Left curly bracket middle piece
0023A9 Left curly bracket lower hook
0023AA Curly bracket extension
0023AB Right curly bracket upper hook
0023AC Right curly bracket middle piece
0023AD Right curly bracket lower hook
0023AE Integral extension
0023AF Horizontal line extension
0023B0 Upper left or lower right curly bracket section
0023B1 Upper right or lower left curly bracket section
0023B2 Summation top
0023B3 Summation bottom
0023B4 Top square bracket
0023B5 Bottom square bracket
0023B6 Bottom square bracket over top square bracket
0023B7 Radical symbol bottom
0023B8 Left vertical box line
0023B9 Right vertical box line
0023BA Horizontal scan line-1
0023BB Horizontal scan line-3
0023BC Horizontal scan line-7
0023BD Horizontal scan line-9
0023BE Dentistry symbol light vertical and top right
0023BF Dentistry symbol light vertical and bottom right
0023C0 Dentistry symbol light vertical with circle
0023C1 Dentistry symbol light down and horizontal with circle
0023C2 Dentistry symbol light up and horizontal with circle
0023C3 Dentistry symbol light vertical with triangle
0023C4 Dentistry symbol light down and horizontal with triangle
0023C5 Dentistry symbol light up and horizontal with triangle
0023C6 Dentistry symbol light vertical and wave
0023C7 Dentistry symbol light down and horizontal with wave
0023C8 Dentistry symbol light up and horizontal with wave
0023C9 Dentistry symbol light down and horizontal
0023CA Dentistry symbol light up and horizontal
0023CB Dentistry symbol light vertical and top left
0023CC Dentistry symbol light vertical and bottom left
0023CD Square foot
0023CE Return symbol
0023CF Eject symbol
0023D0 Vertical line extension
0023D1 Metrical breve
0023D2 Metrical long over short
0023D3 Metrical short over long
0023D4 Metrical long over two shorts
0023D5 Metrical two shorts over long
0023D6 Metrical two shorts joined
0023D7 Metrical triseme
0023D8 Metrical tetraseme
0023D9 Metrical pentaseme
0023DA Earth ground
0023DB Fuse
0023DC Top parenthesis
0023DD Bottom parenthesis
0023DE Top curly bracket
0023DF Bottom curly bracket
0023E0 Top tortoise shell bracket
0023E1 Bottom tortoise shell bracket
0023E2 White trapezium
0023E3 Benzene ring with circle
0023E4 Straightness
0023E5 Flatness
0023E6 Ac current
0023E7 Electrical intersection
0023E8 Decimal exponent symbol
0023E9 Black right-pointing double triangle
0023EA Black left-pointing double triangle
0023EB Black up-pointing double triangle
0023EC Black down-pointing double triangle
0023ED Black right-pointing double triangle with vertical bar
0023EE Black left-pointing double triangle with vertical bar
0023EF Black right-pointing triangle with double vertical bar
0023F0 Alarm clock
0023F1 Stopwatch
0023F2 Timer clock
0023F3 Hourglass with flowing sand
0023F4 Black medium left-pointing triangle
0023F5 Black medium right-pointing triangle
0023F6 Black medium up-pointing triangle
";

pub const NAMES_20: &'static str = "0023F7 Black medium down-pointing triangle
0023F8 Double vertical bar
0023F9 Black square for stop
0023FA Black circle for record
0023FB Power symbol
0023FC Power on-off symbol
0023FD Power on symbol
0023FE Power sleep symbol
0023FF Observer eye symbol
002400 Symbol for null
002401 Symbol for start of heading
002402 Symbol for start of text
002403 Symbol for end of text
002404 Symbol for end of transmission
002405 Symbol for enquiry
002406 Symbol for acknowledge
002407 Symbol for bell
002408 Symbol for backspace
002409 Symbol for horizontal tabulation
00240A Symbol for line feed
00240B Symbol for vertical tabulation
00240C Symbol for form feed
00240D Symbol for carriage return
00240E Symbol for shift out
00240F Symbol for shift in
002410 Symbol for data link escape
002411 Symbol for device control one
002412 Symbol for device control two
002413 Symbol for device control three
002414 Symbol for device control four
002415 Symbol for negative acknowledge
002416 Symbol for synchronous idle
002417 Symbol for end of transmission block
002418 Symbol for cancel
002419 Symbol for end of medium
00241A Symbol for substitute
00241B Symbol for escape
00241C Symbol for file separator
00241D Symbol for group separator
00241E Symbol for record separator
00241F Symbol for unit separator
002420 Symbol for space
002421 Symbol for delete
002422 Blank symbol
002423 Open box
002424 Symbol for newline
002425 Symbol for delete form two
002426 Symbol for substitute form two
002440 Ocr hook
002441 Ocr chair
002442 Ocr fork
002443 Ocr inverted fork
002444 Ocr belt buckle
002445 Ocr bow tie
002446 Ocr branch bank identification
002447 Ocr amount of check
002448 Ocr dash
002449 Ocr customer account number
00244A Ocr double backslash
002460 Circled digit one
002461 Circled digit two
002462 Circled digit three
002463 Circled digit four
002464 Circled digit five
002465 Circled digit six
002466 Circled digit seven
002467 Circled digit eight
002468 Circled digit nine
002469 Circled number ten
00246A Circled number eleven
00246B Circled number twelve
00246C Circled number thirteen
00246D Circled number fourteen
00246E Circled number fifteen
00246F Circled number sixteen
002470 Circled number seventeen
002471 Circled number eighteen
002472 Circled number nineteen
002473 Circled number twenty
002474 Parenthesized digit one
002475 Parenthesized digit two
002476 Parenthesized digit three
002477 Parenthesized digit four
002478 Parenthesized digit five
002479 Parenthesized digit six
00247A Parenthesized digit seven
00247B Parenthesized digit eight
00247C Parenthesized digit nine
00247D Parenthesized number ten
00247E Parenthesized number eleven
00247F Parenthesized number twelve
002480 Parenthesized number thirteen
002481 Parenthesized number fourteen
002482 Parenthesized number fifteen
002483 Parenthesized number sixteen
002484 Parenthesized number seventeen
002485 Parenthesized number eighteen
002486 Parenthesized number nineteen
002487 Parenthesized number twenty
002488 Digit one full stop
002489 Digit two full stop
00248A Digit three full stop
00248B Digit four full stop
00248C Digit five full stop
00248D Digit six full stop
00248E Digit seven full stop
00248F Digit eight full stop
002490 Digit nine full stop
002491 Number ten full stop
002492 Number eleven full stop
002493 Number twelve full stop
002494 Number thirteen full stop
002495 Number fourteen full stop
002496 Number fifteen full stop
002497 Number sixteen full stop
002498 Number seventeen full stop
002499 Number eighteen full stop
00249A Number nineteen full stop
00249B Number twenty full stop
00249C Parenthesized latin small letter a
00249D Parenthesized latin small letter b
00249E Parenthesized latin small letter c
00249F Parenthesized latin small letter d
0024A0 Parenthesized latin small letter e
0024A1 Parenthesized latin small letter f
0024A2 Parenthesized latin small letter g
0024A3 Parenthesized latin small letter h
0024A4 Parenthesized latin small letter i
0024A5 Parenthesized latin small letter j
0024A6 Parenthesized latin small letter k
0024A7 Parenthesized latin small letter l
0024A8 Parenthesized latin small letter m
0024A9 Parenthesized latin small letter n
0024AA Parenthesized latin small letter o
0024AB Parenthesized latin small letter p
0024AC Parenthesized latin small letter q
0024AD Parenthesized latin small letter r
0024AE Parenthesized latin small letter s
0024AF Parenthesized latin small letter t
0024B0 Parenthesized latin small letter u
0024B1 Parenthesized latin small letter v
0024B2 Parenthesized latin small letter w
0024B3 Parenthesized latin small letter x
0024B4 Parenthesized latin small letter y
0024B5 Parenthesized latin small letter z
0024B6 Circled latin capital letter a
0024B7 Circled latin capital letter b
0024B8 Circled latin capital letter c
0024B9 Circled latin capital letter d
0024BA Circled latin capital letter e
0024BB Circled latin capital letter f
0024BC Circled latin capital letter g
0024BD Circled latin capital letter h
0024BE Circled latin capital letter i
0024BF Circled latin capital letter j
0024C0 Circled latin capital letter k
0024C1 Circled latin capital letter l
0024C2 Circled latin capital letter m
0024C3 Circled latin capital letter n
0024C4 Circled latin capital letter o
0024C5 Circled latin capital letter p
0024C6 Circled latin capital letter q
0024C7 Circled latin capital letter r
0024C8 Circled latin capital letter s
0024C9 Circled latin capital letter t
0024CA Circled latin capital letter u
0024CB Circled latin capital letter v
0024CC Circled latin capital letter w
0024CD Circled latin capital letter x
0024CE Circled latin capital letter y
0024CF Circled latin capital letter z
0024D0 Circled latin small letter a
0024D1 Circled latin small letter b
0024D2 Circled latin small letter c
0024D3 Circled latin small letter d
0024D4 Circled latin small letter e
0024D5 Circled latin small letter f
0024D6 Circled latin small letter g
0024D7 Circled latin small letter h
0024D8 Circled latin small letter i
0024D9 Circled latin small letter j
0024DA Circled latin small letter k
0024DB Circled latin small letter l
0024DC Circled latin small letter m
0024DD Circled latin small letter n
0024DE Circled latin small letter o
0024DF Circled latin small letter p
0024E0 Circled latin small letter q
0024E1 Circled latin small letter r
0024E2 Circled latin small letter s
0024E3 Circled latin small letter t
0024E4 Circled latin small letter u
0024E5 Circled latin small letter v
0024E6 Circled latin small letter w
0024E7 Circled latin small letter x
0024E8 Circled latin small letter y
0024E9 Circled latin small letter z
0024EA Circled digit zero
0024EB Negative circled number eleven
0024EC Negative circled number twelve
0024ED Negative circled number thirteen
0024EE Negative circled number fourteen
0024EF Negative circled number fifteen
0024F0 Negative circled number sixteen
0024F1 Negative circled number seventeen
0024F2 Negative circled number eighteen
0024F3 Negative circled number nineteen
0024F4 Negative circled number twenty
0024F5 Double circled digit one
0024F6 Double circled digit two
0024F7 Double circled digit three
0024F8 Double circled digit four
0024F9 Double circled digit five
0024FA Double circled digit six
0024FB Double circled digit seven
0024FC Double circled digit eight
0024FD Double circled digit nine
0024FE Double circled number ten
0024FF Negative circled digit zero
002500 Box drawings light horizontal
002501 Box drawings heavy horizontal
002502 Box drawings light vertical
002503 Box drawings heavy vertical
002504 Box drawings light triple dash horizontal
002505 Box drawings heavy triple dash horizontal
002506 Box drawings light triple dash vertical
002507 Box drawings heavy triple dash vertical
002508 Box drawings light quadruple dash horizontal
002509 Box drawings heavy quadruple dash horizontal
00250A Box drawings light quadruple dash vertical
00250B Box drawings heavy quadruple dash vertical
00250C Box drawings light down and right
00250D Box drawings down light and right heavy
00250E Box drawings down heavy and right light
00250F Box drawings heavy down and right
002510 Box drawings light down and left
002511 Box drawings down light and left heavy
002512 Box drawings down heavy and left light
002513 Box drawings heavy down and left
002514 Box drawings light up and right
002515 Box drawings up light and right heavy
002516 Box drawings up heavy and right light
002517 Box drawings heavy up and right
002518 Box drawings light up and left
002519 Box drawings up light and left heavy
00251A Box drawings up heavy and left light
00251B Box drawings heavy up and left
00251C Box drawings light vertical and right
00251D Box drawings vertical light and right heavy
00251E Box drawings up heavy and right down light
00251F Box drawings down heavy and right up light
002520 Box drawings vertical heavy and right light
002521 Box drawings down light and right up heavy
002522 Box drawings up light and right down heavy
002523 Box drawings heavy vertical and right
002524 Box drawings light vertical and left
002525 Box drawings vertical light and left heavy
002526 Box drawings up heavy and left down light
002527 Box drawings down heavy and left up light
002528 Box drawings vertical heavy and left light
002529 Box drawings down light and left up heavy
00252A Box drawings up light and left down heavy
00252B Box drawings heavy vertical and left
00252C Box drawings light down and horizontal
00252D Box drawings left heavy and right down light
00252E Box drawings right heavy and left down light
00252F Box drawings down light and horizontal heavy
002530 Box drawings down heavy and horizontal light
002531 Box drawings right light and left down heavy
002532 Box drawings left light and right down heavy
002533 Box drawings heavy down and horizontal
002534 Box drawings light up and horizontal
002535 Box drawings left heavy and right up light
002536 Box drawings right heavy and left up light
002537 Box drawings up light and horizontal heavy
002538 Box drawings up heavy and horizontal light
002539 Box drawings right light and left up heavy
00253A Box drawings left light and right up heavy
00253B Box drawings heavy up and horizontal
00253C Box drawings light vertical and horizontal
00253D Box drawings left heavy and right vertical light
00253E Box drawings right heavy and left vertical light
00253F Box drawings vertical light and horizontal heavy
002540 Box drawings up heavy and down horizontal light
002541 Box drawings down heavy and up horizontal light
002542 Box drawings vertical heavy and horizontal light
002543 Box drawings left up heavy and right down light
002544 Box drawings right up heavy and left down light
002545 Box drawings left down heavy and right up light
002546 Box drawings right down heavy and left up light
002547 Box drawings down light and up horizontal heavy
002548 Box drawings up light and down horizontal heavy
002549 Box drawings right light and left vertical heavy
00254A Box drawings left light and right vertical heavy
00254B Box drawings heavy vertical and horizontal
00254C Box drawings light double dash horizontal
00254D Box drawings heavy double dash horizontal
00254E Box drawings light double dash vertical
00254F Box drawings heavy double dash vertical
002550 Box drawings double horizontal
002551 Box drawings double vertical
002552 Box drawings down single and right double
002553 Box drawings down double and right single
002554 Box drawings double down and right
002555 Box drawings down single and left double
002556 Box drawings down double and left single
002557 Box drawings double down and left
002558 Box drawings up single and right double
002559 Box drawings up double and right single
00255A Box drawings double up and right
00255B Box drawings up single and left double
00255C Box drawings up double and left single
00255D Box drawings double up and left
00255E Box drawings vertical single and right double
00255F Box drawings vertical double and right single
002560 Box drawings double vertical and right
002561 Box drawings vertical single and left double
002562 Box drawings vertical double and left single
002563 Box drawings double vertical and left
002564 Box drawings down single and horizontal double
002565 Box drawings down double and horizontal single
002566 Box drawings double down and horizontal
002567 Box drawings up single and horizontal double
002568 Box drawings up double and horizontal single
002569 Box drawings double up and horizontal
00256A Box drawings vertical single and horizontal double
00256B Box drawings vertical double and horizontal single
00256C Box drawings double vertical and horizontal
00256D Box drawings light arc down and right
00256E Box drawings light arc down and left
00256F Box drawings light arc up and left
002570 Box drawings light arc up and right
002571 Box drawings light diagonal upper right to lower left
002572 Box drawings light diagonal upper left to lower right
002573 Box drawings light diagonal cross
002574 Box drawings light left
002575 Box drawings light up
002576 Box drawings light right
002577 Box drawings light down
002578 Box drawings heavy left
002579 Box drawings heavy up
00257A Box drawings heavy right
00257B Box drawings heavy down
00257C Box drawings light left and heavy right
00257D Box drawings light up and heavy down
00257E Box drawings heavy left and light right
00257F Box drawings heavy up and light down
002580 Upper half block
002581 Lower one eighth block
002582 Lower one quarter block
002583 Lower three eighths block
002584 Lower half block
002585 Lower five eighths block
002586 Lower three quarters block
002587 Lower seven eighths block
002588 Full block
002589 Left seven eighths block
00258A Left three quarters block
00258B Left five eighths block
00258C Left half block
00258D Left three eighths block
00258E Left one quarter block
00258F Left one eighth block
002590 Right half block
002591 Light shade
002592 Medium shade
002593 Dark shade
002594 Upper one eighth block
";

pub const NAMES_21: &'static str = "002595 Right one eighth block
002596 Quadrant lower left
002597 Quadrant lower right
002598 Quadrant upper left
002599 Quadrant upper left and lower left and lower right
00259A Quadrant upper left and lower right
00259B Quadrant upper left and upper right and lower left
00259C Quadrant upper left and upper right and lower right
00259D Quadrant upper right
00259E Quadrant upper right and lower left
00259F Quadrant upper right and lower left and lower right
0025A0 Black square
0025A1 White square
0025A2 White square with rounded corners
0025A3 White square containing black small square
0025A4 Square with horizontal fill
0025A5 Square with vertical fill
0025A6 Square with orthogonal crosshatch fill
0025A7 Square with upper left to lower right fill
0025A8 Square with upper right to lower left fill
0025A9 Square with diagonal crosshatch fill
0025AA Black small square
0025AB White small square
0025AC Black rectangle
0025AD White rectangle
0025AE Black vertical rectangle
0025AF White vertical rectangle
0025B0 Black parallelogram
0025B1 White parallelogram
0025B2 Black up-pointing triangle
0025B3 White up-pointing triangle
0025B4 Black up-pointing small triangle
0025B5 White up-pointing small triangle
0025B6 Black right-pointing triangle
0025B7 White right-pointing triangle
0025B8 Black right-pointing small triangle
0025B9 White right-pointing small triangle
0025BA Black right-pointing pointer
0025BB White right-pointing pointer
0025BC Black down-pointing triangle
0025BD White down-pointing triangle
0025BE Black down-pointing small triangle
0025BF White down-pointing small triangle
0025C0 Black left-pointing triangle
0025C1 White left-pointing triangle
0025C2 Black left-pointing small triangle
0025C3 White left-pointing small triangle
0025C4 Black left-pointing pointer
0025C5 White left-pointing pointer
0025C6 Black diamond
0025C7 White diamond
0025C8 White diamond containing black small diamond
0025C9 Fisheye
0025CA Lozenge
0025CB White circle
0025CC Dotted circle
0025CD Circle with vertical fill
0025CE Bullseye
0025CF Black circle
0025D0 Circle with left half black
0025D1 Circle with right half black
0025D2 Circle with lower half black
0025D3 Circle with upper half black
0025D4 Circle with upper right quadrant black
0025D5 Circle with all but upper left quadrant black
0025D6 Left half black circle
0025D7 Right half black circle
0025D8 Inverse bullet
0025D9 Inverse white circle
0025DA Upper half inverse white circle
0025DB Lower half inverse white circle
0025DC Upper left quadrant circular arc
0025DD Upper right quadrant circular arc
0025DE Lower right quadrant circular arc
0025DF Lower left quadrant circular arc
0025E0 Upper half circle
0025E1 Lower half circle
0025E2 Black lower right triangle
0025E3 Black lower left triangle
0025E4 Black upper left triangle
0025E5 Black upper right triangle
0025E6 White bullet
0025E7 Square with left half black
0025E8 Square with right half black
0025E9 Square with upper left diagonal half black
0025EA Square with lower right diagonal half black
0025EB White square with vertical bisecting line
0025EC White up-pointing triangle with dot
0025ED Up-pointing triangle with left half black
0025EE Up-pointing triangle with right half black
0025EF Large circle
0025F0 White square with upper left quadrant
0025F1 White square with lower left quadrant
0025F2 White square with lower right quadrant
0025F3 White square with upper right quadrant
0025F4 White circle with upper left quadrant
0025F5 White circle with lower left quadrant
0025F6 White circle with lower right quadrant
0025F7 White circle with upper right quadrant
0025F8 Upper left triangle
0025F9 Upper right triangle
0025FA Lower left triangle
0025FB White medium square
0025FC Black medium square
0025FD White medium small square
0025FE Black medium small square
0025FF Lower right triangle
002600 Black sun with rays
002601 Cloud
002602 Umbrella
002603 Snowman
002604 Comet
002605 Black star
002606 White star
002607 Lightning
002608 Thunderstorm
002609 Sun
00260A Ascending node
00260B Descending node
00260C Conjunction
00260D Opposition
00260E Black telephone
00260F White telephone
002610 Ballot box
002611 Ballot box with check
002612 Ballot box with x
002613 Saltire
002614 Umbrella with rain drops
002615 Hot beverage
002616 White shogi piece
002617 Black shogi piece
002618 Shamrock
002619 Reversed rotated floral heart bullet
00261A Black left pointing index
00261B Black right pointing index
00261C White left pointing index
00261D White up pointing index
00261E White right pointing index
00261F White down pointing index
002620 Skull and crossbones
002621 Caution sign
002622 Radioactive sign
002623 Biohazard sign
002624 Caduceus
002625 Ankh
002626 Orthodox cross
002627 Chi rho
002628 Cross of lorraine
002629 Cross of jerusalem
00262A Star and crescent
00262B Farsi symbol
00262C Adi shakti
00262D Hammer and sickle
00262E Peace symbol
00262F Yin yang
002630 Trigram for heaven
002631 Trigram for lake
002632 Trigram for fire
002633 Trigram for thunder
002634 Trigram for wind
002635 Trigram for water
002636 Trigram for mountain
002637 Trigram for earth
002638 Wheel of dharma
002639 White frowning face
00263A White smiling face
00263B Black smiling face
00263C White sun with rays
00263D First quarter moon
00263E Last quarter moon
00263F Mercury
002640 Female sign
002641 Earth
002642 Male sign
002643 Jupiter
002644 Saturn
002645 Uranus
002646 Neptune
002647 Pluto
002648 Aries
002649 Taurus
00264A Gemini
00264B Cancer
00264C Leo
00264D Virgo
00264E Libra
00264F Scorpius
002650 Sagittarius
002651 Capricorn
002652 Aquarius
002653 Pisces
002654 White chess king
002655 White chess queen
002656 White chess rook
002657 White chess bishop
002658 White chess knight
002659 White chess pawn
00265A Black chess king
00265B Black chess queen
00265C Black chess rook
00265D Black chess bishop
00265E Black chess knight
00265F Black chess pawn
002660 Black spade suit
002661 White heart suit
002662 White diamond suit
002663 Black club suit
002664 White spade suit
002665 Black heart suit
002666 Black diamond suit
002667 White club suit
002668 Hot springs
002669 Quarter note
00266A Eighth note
00266B Beamed eighth notes
00266C Beamed sixteenth notes
00266D Music flat sign
00266E Music natural sign
00266F Music sharp sign
002670 West syriac cross
002671 East syriac cross
002672 Universal recycling symbol
002673 Recycling symbol for type-1 plastics
002674 Recycling symbol for type-2 plastics
002675 Recycling symbol for type-3 plastics
002676 Recycling symbol for type-4 plastics
002677 Recycling symbol for type-5 plastics
002678 Recycling symbol for type-6 plastics
002679 Recycling symbol for type-7 plastics
00267A Recycling symbol for generic materials
00267B Black universal recycling symbol
00267C Recycled paper symbol
00267D Partially-recycled paper symbol
00267E Permanent paper sign
00267F Wheelchair symbol
002680 Die face-1
002681 Die face-2
002682 Die face-3
002683 Die face-4
002684 Die face-5
002685 Die face-6
002686 White circle with dot right
002687 White circle with two dots
002688 Black circle with white dot right
002689 Black circle with two white dots
00268A Monogram for yang
00268B Monogram for yin
00268C Digram for greater yang
00268D Digram for lesser yin
00268E Digram for lesser yang
00268F Digram for greater yin
002690 White flag
002691 Black flag
002692 Hammer and pick
002693 Anchor
002694 Crossed swords
002695 Staff of aesculapius
002696 Scales
002697 Alembic
002698 Flower
002699 Gear
00269A Staff of hermes
00269B Atom symbol
00269C Fleur-de-lis
00269D Outlined white star
00269E Three lines converging right
00269F Three lines converging left
0026A0 Warning sign
0026A1 High voltage sign
0026A2 Doubled female sign
0026A3 Doubled male sign
0026A4 Interlocked female and male sign
0026A5 Male and female sign
0026A6 Male with stroke sign
0026A7 Male with stroke and male and female sign
0026A8 Vertical male with stroke sign
0026A9 Horizontal male with stroke sign
0026AA Medium white circle
0026AB Medium black circle
0026AC Medium small white circle
0026AD Marriage symbol
0026AE Divorce symbol
0026AF Unmarried partnership symbol
0026B0 Coffin
0026B1 Funeral urn
0026B2 Neuter
0026B3 Ceres
0026B4 Pallas
0026B5 Juno
0026B6 Vesta
0026B7 Chiron
0026B8 Black moon lilith
0026B9 Sextile
0026BA Semisextile
0026BB Quincunx
0026BC Sesquiquadrate
0026BD Soccer ball
0026BE Baseball
0026BF Squared key
0026C0 White draughts man
0026C1 White draughts king
0026C2 Black draughts man
0026C3 Black draughts king
0026C4 Snowman without snow
0026C5 Sun behind cloud
0026C6 Rain
0026C7 Black snowman
0026C8 Thunder cloud and rain
0026C9 Turned white shogi piece
0026CA Turned black shogi piece
0026CB White diamond in square
0026CC Crossing lanes
0026CD Disabled car
0026CE Ophiuchus
0026CF Pick
0026D0 Car sliding
0026D1 Helmet with white cross
0026D2 Circled crossing lanes
0026D3 Chains
0026D4 No entry
0026D5 Alternate one-way left way traffic
0026D6 Black two-way left way traffic
0026D7 White two-way left way traffic
0026D8 Black left lane merge
0026D9 White left lane merge
0026DA Drive slow sign
0026DB Heavy white down-pointing triangle
0026DC Left closed entry
0026DD Squared saltire
0026DE Falling diagonal in white circle in black square
0026DF Black truck
0026E0 Restricted left entry-1
0026E1 Restricted left entry-2
0026E2 Astronomical symbol for uranus
0026E3 Heavy circle with stroke and two dots above
0026E4 Pentagram
0026E5 Right-handed interlaced pentagram
0026E6 Left-handed interlaced pentagram
0026E7 Inverted pentagram
0026E8 Black cross on shield
0026E9 Shinto shrine
0026EA Church
0026EB Castle
0026EC Historic site
0026ED Gear without hub
0026EE Gear with handles
0026EF Map symbol for lighthouse
0026F0 Mountain
0026F1 Umbrella on ground
0026F2 Fountain
0026F3 Flag in hole
0026F4 Ferry
0026F5 Sailboat
0026F6 Square four corners
0026F7 Skier
0026F8 Ice skate
0026F9 Person with ball
0026FA Tent
0026FB Japanese bank symbol
0026FC Headstone graveyard symbol
0026FD Fuel pump
0026FE Cup on black square
0026FF White flag with horizontal middle black stripe
002700 Black safety scissors
002701 Upper blade scissors
002702 Black scissors
002703 Lower blade scissors
002704 White scissors
002705 White heavy check mark
002706 Telephone location sign
002707 Tape drive
002708 Airplane
002709 Envelope
00270A Raised fist
00270B Raised hand
00270C Victory hand
00270D Writing hand
00270E Lower right pencil
00270F Pencil
002710 Upper right pencil
002711 White nib
002712 Black nib
002713 Check mark
002714 Heavy check mark
002715 Multiplication x
002716 Heavy multiplication x
002717 Ballot x
002718 Heavy ballot x
002719 Outlined greek cross
00271A Heavy greek cross
00271B Open centre cross
00271C Heavy open centre cross
00271D Latin cross
00271E Shadowed white latin cross
00271F Outlined latin cross
002720 Maltese cross
002721 Star of david
002722 Four teardrop-spoked asterisk
002723 Four balloon-spoked asterisk
002724 Heavy four balloon-spoked asterisk
002725 Four club-spoked asterisk
002726 Black four pointed star
002727 White four pointed star
002728 Sparkles
002729 Stress outlined white star
00272A Circled white star
00272B Open centre black star
00272C Black centre white star
00272D Outlined black star
00272E Heavy outlined black star
00272F Pinwheel star
002730 Shadowed white star
002731 Heavy asterisk
002732 Open centre asterisk
002733 Eight spoked asterisk
002734 Eight pointed black star
002735 Eight pointed pinwheel star
002736 Six pointed black star
002737 Eight pointed rectilinear black star
002738 Heavy eight pointed rectilinear black star
002739 Twelve pointed black star
00273A Sixteen pointed asterisk
00273B Teardrop-spoked asterisk
00273C Open centre teardrop-spoked asterisk
00273D Heavy teardrop-spoked asterisk
00273E Six petalled black and white florette
00273F Black florette
002740 White florette
002741 Eight petalled outlined black florette
002742 Circled open centre eight pointed star
002743 Heavy teardrop-spoked pinwheel asterisk
002744 Snowflake
002745 Tight trifoliate snowflake
002746 Heavy chevron snowflake
002747 Sparkle
002748 Heavy sparkle
002749 Balloon-spoked asterisk
00274A Eight teardrop-spoked propeller asterisk
00274B Heavy eight teardrop-spoked propeller asterisk
00274C Cross mark
00274D Shadowed white circle
00274E Negative squared cross mark
00274F Lower right drop-shadowed white square
002750 Upper right drop-shadowed white square
002751 Lower right shadowed white square
002752 Upper right shadowed white square
002753 Black question mark ornament
002754 White question mark ornament
002755 White exclamation mark ornament
002756 Black diamond minus white x
002757 Heavy exclamation mark symbol
002758 Light vertical bar
002759 Medium vertical bar
00275A Heavy vertical bar
00275B Heavy single turned comma quotation mark ornament
00275C Heavy single comma quotation mark ornament
00275D Heavy double turned comma quotation mark ornament
00275E Heavy double comma quotation mark ornament
00275F Heavy low single comma quotation mark ornament
002760 Heavy low double comma quotation mark ornament
002761 Curved stem paragraph sign ornament
002762 Heavy exclamation mark ornament
002763 Heavy heart exclamation mark ornament
002764 Heavy black heart
002765 Rotated heavy black heart bullet
002766 Floral heart
002767 Rotated floral heart bullet
002768 Medium left parenthesis ornament
002769 Medium right parenthesis ornament
00276A Medium flattened left parenthesis ornament
00276B Medium flattened right parenthesis ornament
00276C Medium left-pointing angle bracket ornament
00276D Medium right-pointing angle bracket ornament
00276E Heavy left-pointing angle quotation mark ornament
00276F Heavy right-pointing angle quotation mark ornament
002770 Heavy left-pointing angle bracket ornament
002771 Heavy right-pointing angle bracket ornament
002772 Light left tortoise shell bracket ornament
002773 Light right tortoise shell bracket ornament
002774 Medium left curly bracket ornament
";

pub const NAMES_22: &'static str = "002775 Medium right curly bracket ornament
002776 Dingbat negative circled digit one
002777 Dingbat negative circled digit two
002778 Dingbat negative circled digit three
002779 Dingbat negative circled digit four
00277A Dingbat negative circled digit five
00277B Dingbat negative circled digit six
00277C Dingbat negative circled digit seven
00277D Dingbat negative circled digit eight
00277E Dingbat negative circled digit nine
00277F Dingbat negative circled number ten
002780 Dingbat circled sans-serif digit one
002781 Dingbat circled sans-serif digit two
002782 Dingbat circled sans-serif digit three
002783 Dingbat circled sans-serif digit four
002784 Dingbat circled sans-serif digit five
002785 Dingbat circled sans-serif digit six
002786 Dingbat circled sans-serif digit seven
002787 Dingbat circled sans-serif digit eight
002788 Dingbat circled sans-serif digit nine
002789 Dingbat circled sans-serif number ten
00278A Dingbat negative circled sans-serif digit one
00278B Dingbat negative circled sans-serif digit two
00278C Dingbat negative circled sans-serif digit three
00278D Dingbat negative circled sans-serif digit four
00278E Dingbat negative circled sans-serif digit five
00278F Dingbat negative circled sans-serif digit six
002790 Dingbat negative circled sans-serif digit seven
002791 Dingbat negative circled sans-serif digit eight
002792 Dingbat negative circled sans-serif digit nine
002793 Dingbat negative circled sans-serif number ten
002794 Heavy wide-headed rightwards arrow
002795 Heavy plus sign
002796 Heavy minus sign
002797 Heavy division sign
002798 Heavy south east arrow
002799 Heavy rightwards arrow
00279A Heavy north east arrow
00279B Drafting point rightwards arrow
00279C Heavy round-tipped rightwards arrow
00279D Triangle-headed rightwards arrow
00279E Heavy triangle-headed rightwards arrow
00279F Dashed triangle-headed rightwards arrow
0027A0 Heavy dashed triangle-headed rightwards arrow
0027A1 Black rightwards arrow
0027A2 Three-d top-lighted rightwards arrowhead
0027A3 Three-d bottom-lighted rightwards arrowhead
0027A4 Black rightwards arrowhead
0027A5 Heavy black curved downwards and rightwards arrow
0027A6 Heavy black curved upwards and rightwards arrow
0027A7 Squat black rightwards arrow
0027A8 Heavy concave-pointed black rightwards arrow
0027A9 Right-shaded white rightwards arrow
0027AA Left-shaded white rightwards arrow
0027AB Back-tilted shadowed white rightwards arrow
0027AC Front-tilted shadowed white rightwards arrow
0027AD Heavy lower right-shadowed white rightwards arrow
0027AE Heavy upper right-shadowed white rightwards arrow
0027AF Notched lower right-shadowed white rightwards arrow
0027B0 Curly loop
0027B1 Notched upper right-shadowed white rightwards arrow
0027B2 Circled heavy white rightwards arrow
0027B3 White-feathered rightwards arrow
0027B4 Black-feathered south east arrow
0027B5 Black-feathered rightwards arrow
0027B6 Black-feathered north east arrow
0027B7 Heavy black-feathered south east arrow
0027B8 Heavy black-feathered rightwards arrow
0027B9 Heavy black-feathered north east arrow
0027BA Teardrop-barbed rightwards arrow
0027BB Heavy teardrop-shanked rightwards arrow
0027BC Wedge-tailed rightwards arrow
0027BD Heavy wedge-tailed rightwards arrow
0027BE Open-outlined rightwards arrow
0027BF Double curly loop
0027C0 Three dimensional angle
0027C1 White triangle containing small white triangle
0027C2 Perpendicular
0027C3 Open subset
0027C4 Open superset
0027C5 Left s-shaped bag delimiter
0027C6 Right s-shaped bag delimiter
0027C7 Or with dot inside
0027C8 Reverse solidus preceding subset
0027C9 Superset preceding solidus
0027CA Vertical bar with horizontal stroke
0027CB Mathematical rising diagonal
0027CC Long division
0027CD Mathematical falling diagonal
0027CE Squared logical and
0027CF Squared logical or
0027D0 White diamond with centred dot
0027D1 And with dot
0027D2 Element of opening upwards
0027D3 Lower right corner with dot
0027D4 Upper left corner with dot
0027D5 Left outer join
0027D6 Right outer join
0027D7 Full outer join
0027D8 Large up tack
0027D9 Large down tack
0027DA Left and right double turnstile
0027DB Left and right tack
0027DC Left multimap
0027DD Long right tack
0027DE Long left tack
0027DF Up tack with circle above
0027E0 Lozenge divided by horizontal rule
0027E1 White concave-sided diamond
0027E2 White concave-sided diamond with leftwards tick
0027E3 White concave-sided diamond with rightwards tick
0027E4 White square with leftwards tick
0027E5 White square with rightwards tick
0027E6 Mathematical left white square bracket
0027E7 Mathematical right white square bracket
0027E8 Mathematical left angle bracket
0027E9 Mathematical right angle bracket
0027EA Mathematical left double angle bracket
0027EB Mathematical right double angle bracket
0027EC Mathematical left white tortoise shell bracket
0027ED Mathematical right white tortoise shell bracket
0027EE Mathematical left flattened parenthesis
0027EF Mathematical right flattened parenthesis
0027F0 Upwards quadruple arrow
0027F1 Downwards quadruple arrow
0027F2 Anticlockwise gapped circle arrow
0027F3 Clockwise gapped circle arrow
0027F4 Right arrow with circled plus
0027F5 Long leftwards arrow
0027F6 Long rightwards arrow
0027F7 Long left right arrow
0027F8 Long leftwards double arrow
0027F9 Long rightwards double arrow
0027FA Long left right double arrow
0027FB Long leftwards arrow from bar
0027FC Long rightwards arrow from bar
0027FD Long leftwards double arrow from bar
0027FE Long rightwards double arrow from bar
0027FF Long rightwards squiggle arrow
002800 Braille pattern blank
002801 Braille pattern dots-1
002802 Braille pattern dots-2
002803 Braille pattern dots-12
002804 Braille pattern dots-3
002805 Braille pattern dots-13
002806 Braille pattern dots-23
002807 Braille pattern dots-123
002808 Braille pattern dots-4
002809 Braille pattern dots-14
00280A Braille pattern dots-24
00280B Braille pattern dots-124
00280C Braille pattern dots-34
00280D Braille pattern dots-134
00280E Braille pattern dots-234
00280F Braille pattern dots-1234
002810 Braille pattern dots-5
002811 Braille pattern dots-15
002812 Braille pattern dots-25
002813 Braille pattern dots-125
002814 Braille pattern dots-35
002815 Braille pattern dots-135
002816 Braille pattern dots-235
002817 Braille pattern dots-1235
002818 Braille pattern dots-45
002819 Braille pattern dots-145
00281A Braille pattern dots-245
00281B Braille pattern dots-1245
00281C Braille pattern dots-345
00281D Braille pattern dots-1345
00281E Braille pattern dots-2345
00281F Braille pattern dots-12345
002820 Braille pattern dots-6
002821 Braille pattern dots-16
002822 Braille pattern dots-26
002823 Braille pattern dots-126
002824 Braille pattern dots-36
002825 Braille pattern dots-136
002826 Braille pattern dots-236
002827 Braille pattern dots-1236
002828 Braille pattern dots-46
002829 Braille pattern dots-146
00282A Braille pattern dots-246
00282B Braille pattern dots-1246
00282C Braille pattern dots-346
00282D Braille pattern dots-1346
00282E Braille pattern dots-2346
00282F Braille pattern dots-12346
002830 Braille pattern dots-56
002831 Braille pattern dots-156
002832 Braille pattern dots-256
002833 Braille pattern dots-1256
002834 Braille pattern dots-356
002835 Braille pattern dots-1356
002836 Braille pattern dots-2356
002837 Braille pattern dots-12356
002838 Braille pattern dots-456
002839 Braille pattern dots-1456
00283A Braille pattern dots-2456
00283B Braille pattern dots-12456
00283C Braille pattern dots-3456
00283D Braille pattern dots-13456
00283E Braille pattern dots-23456
00283F Braille pattern dots-123456
002840 Braille pattern dots-7
002841 Braille pattern dots-17
002842 Braille pattern dots-27
002843 Braille pattern dots-127
002844 Braille pattern dots-37
002845 Braille pattern dots-137
002846 Braille pattern dots-237
002847 Braille pattern dots-1237
002848 Braille pattern dots-47
002849 Braille pattern dots-147
00284A Braille pattern dots-247
00284B Braille pattern dots-1247
00284C Braille pattern dots-347
00284D Braille pattern dots-1347
00284E Braille pattern dots-2347
00284F Braille pattern dots-12347
002850 Braille pattern dots-57
002851 Braille pattern dots-157
002852 Braille pattern dots-257
002853 Braille pattern dots-1257
002854 Braille pattern dots-357
002855 Braille pattern dots-1357
002856 Braille pattern dots-2357
002857 Braille pattern dots-12357
002858 Braille pattern dots-457
002859 Braille pattern dots-1457
00285A Braille pattern dots-2457
00285B Braille pattern dots-12457
00285C Braille pattern dots-3457
00285D Braille pattern dots-13457
00285E Braille pattern dots-23457
00285F Braille pattern dots-123457
002860 Braille pattern dots-67
002861 Braille pattern dots-167
002862 Braille pattern dots-267
002863 Braille pattern dots-1267
002864 Braille pattern dots-367
002865 Braille pattern dots-1367
002866 Braille pattern dots-2367
002867 Braille pattern dots-12367
002868 Braille pattern dots-467
002869 Braille pattern dots-1467
00286A Braille pattern dots-2467
00286B Braille pattern dots-12467
00286C Braille pattern dots-3467
00286D Braille pattern dots-13467
00286E Braille pattern dots-23467
00286F Braille pattern dots-123467
002870 Braille pattern dots-567
002871 Braille pattern dots-1567
002872 Braille pattern dots-2567
002873 Braille pattern dots-12567
002874 Braille pattern dots-3567
002875 Braille pattern dots-13567
002876 Braille pattern dots-23567
002877 Braille pattern dots-123567
002878 Braille pattern dots-4567
002879 Braille pattern dots-14567
00287A Braille pattern dots-24567
00287B Braille pattern dots-124567
00287C Braille pattern dots-34567
00287D Braille pattern dots-134567
00287E Braille pattern dots-234567
00287F Braille pattern dots-1234567
002880 Braille pattern dots-8
002881 Braille pattern dots-18
002882 Braille pattern dots-28
002883 Braille pattern dots-128
002884 Braille pattern dots-38
002885 Braille pattern dots-138
002886 Braille pattern dots-238
002887 Braille pattern dots-1238
002888 Braille pattern dots-48
002889 Braille pattern dots-148
00288A Braille pattern dots-248
00288B Braille pattern dots-1248
00288C Braille pattern dots-348
00288D Braille pattern dots-1348
00288E Braille pattern dots-2348
00288F Braille pattern dots-12348
002890 Braille pattern dots-58
002891 Braille pattern dots-158
002892 Braille pattern dots-258
002893 Braille pattern dots-1258
002894 Braille pattern dots-358
002895 Braille pattern dots-1358
002896 Braille pattern dots-2358
002897 Braille pattern dots-12358
002898 Braille pattern dots-458
002899 Braille pattern dots-1458
00289A Braille pattern dots-2458
00289B Braille pattern dots-12458
00289C Braille pattern dots-3458
00289D Braille pattern dots-13458
00289E Braille pattern dots-23458
00289F Braille pattern dots-123458
0028A0 Braille pattern dots-68
0028A1 Braille pattern dots-168
0028A2 Braille pattern dots-268
0028A3 Braille pattern dots-1268
0028A4 Braille pattern dots-368
0028A5 Braille pattern dots-1368
0028A6 Braille pattern dots-2368
0028A7 Braille pattern dots-12368
0028A8 Braille pattern dots-468
0028A9 Braille pattern dots-1468
0028AA Braille pattern dots-2468
0028AB Braille pattern dots-12468
0028AC Braille pattern dots-3468
0028AD Braille pattern dots-13468
0028AE Braille pattern dots-23468
0028AF Braille pattern dots-123468
0028B0 Braille pattern dots-568
0028B1 Braille pattern dots-1568
0028B2 Braille pattern dots-2568
0028B3 Braille pattern dots-12568
0028B4 Braille pattern dots-3568
0028B5 Braille pattern dots-13568
0028B6 Braille pattern dots-23568
0028B7 Braille pattern dots-123568
0028B8 Braille pattern dots-4568
0028B9 Braille pattern dots-14568
0028BA Braille pattern dots-24568
0028BB Braille pattern dots-124568
0028BC Braille pattern dots-34568
0028BD Braille pattern dots-134568
0028BE Braille pattern dots-234568
0028BF Braille pattern dots-1234568
0028C0 Braille pattern dots-78
0028C1 Braille pattern dots-178
0028C2 Braille pattern dots-278
0028C3 Braille pattern dots-1278
0028C4 Braille pattern dots-378
0028C5 Braille pattern dots-1378
0028C6 Braille pattern dots-2378
0028C7 Braille pattern dots-12378
0028C8 Braille pattern dots-478
0028C9 Braille pattern dots-1478
0028CA Braille pattern dots-2478
0028CB Braille pattern dots-12478
0028CC Braille pattern dots-3478
0028CD Braille pattern dots-13478
0028CE Braille pattern dots-23478
0028CF Braille pattern dots-123478
0028D0 Braille pattern dots-578
0028D1 Braille pattern dots-1578
0028D2 Braille pattern dots-2578
0028D3 Braille pattern dots-12578
0028D4 Braille pattern dots-3578
0028D5 Braille pattern dots-13578
0028D6 Braille pattern dots-23578
0028D7 Braille pattern dots-123578
0028D8 Braille pattern dots-4578
0028D9 Braille pattern dots-14578
0028DA Braille pattern dots-24578
0028DB Braille pattern dots-124578
0028DC Braille pattern dots-34578
0028DD Braille pattern dots-134578
0028DE Braille pattern dots-234578
0028DF Braille pattern dots-1234578
0028E0 Braille pattern dots-678
0028E1 Braille pattern dots-1678
0028E2 Braille pattern dots-2678
0028E3 Braille pattern dots-12678
0028E4 Braille pattern dots-3678
0028E5 Braille pattern dots-13678
0028E6 Braille pattern dots-23678
0028E7 Braille pattern dots-123678
0028E8 Braille pattern dots-4678
0028E9 Braille pattern dots-14678
0028EA Braille pattern dots-24678
0028EB Braille pattern dots-124678
0028EC Braille pattern dots-34678
0028ED Braille pattern dots-134678
0028EE Braille pattern dots-234678
0028EF Braille pattern dots-1234678
0028F0 Braille pattern dots-5678
0028F1 Braille pattern dots-15678
0028F2 Braille pattern dots-25678
0028F3 Braille pattern dots-125678
0028F4 Braille pattern dots-35678
0028F5 Braille pattern dots-135678
0028F6 Braille pattern dots-235678
0028F7 Braille pattern dots-1235678
0028F8 Braille pattern dots-45678
0028F9 Braille pattern dots-145678
0028FA Braille pattern dots-245678
0028FB Braille pattern dots-1245678
0028FC Braille pattern dots-345678
0028FD Braille pattern dots-1345678
0028FE Braille pattern dots-2345678
";

pub const NAMES_23: &'static str = "0028FF Braille pattern dots-12345678
002900 Rightwards two-headed arrow with vertical stroke
002901 Rightwards two-headed arrow with double vertical stroke
002902 Leftwards double arrow with vertical stroke
002903 Rightwards double arrow with vertical stroke
002904 Left right double arrow with vertical stroke
002905 Rightwards two-headed arrow from bar
002906 Leftwards double arrow from bar
002907 Rightwards double arrow from bar
002908 Downwards arrow with horizontal stroke
002909 Upwards arrow with horizontal stroke
00290A Upwards triple arrow
00290B Downwards triple arrow
00290C Leftwards double dash arrow
00290D Rightwards double dash arrow
00290E Leftwards triple dash arrow
00290F Rightwards triple dash arrow
002910 Rightwards two-headed triple dash arrow
002911 Rightwards arrow with dotted stem
002912 Upwards arrow to bar
002913 Downwards arrow to bar
002914 Rightwards arrow with tail with vertical stroke
002915 Rightwards arrow with tail with double vertical stroke
002916 Rightwards two-headed arrow with tail
002917 Rightwards two-headed arrow with tail with vertical stroke
002918 Rightwards two-headed arrow with tail with double vertical stroke
002919 Leftwards arrow-tail
00291A Rightwards arrow-tail
00291B Leftwards double arrow-tail
00291C Rightwards double arrow-tail
00291D Leftwards arrow to black diamond
00291E Rightwards arrow to black diamond
00291F Leftwards arrow from bar to black diamond
002920 Rightwards arrow from bar to black diamond
002921 North west and south east arrow
002922 North east and south west arrow
002923 North west arrow with hook
002924 North east arrow with hook
002925 South east arrow with hook
002926 South west arrow with hook
002927 North west arrow and north east arrow
002928 North east arrow and south east arrow
002929 South east arrow and south west arrow
00292A South west arrow and north west arrow
00292B Rising diagonal crossing falling diagonal
00292C Falling diagonal crossing rising diagonal
00292D South east arrow crossing north east arrow
00292E North east arrow crossing south east arrow
00292F Falling diagonal crossing north east arrow
002930 Rising diagonal crossing south east arrow
002931 North east arrow crossing north west arrow
002932 North west arrow crossing north east arrow
002933 Wave arrow pointing directly right
002934 Arrow pointing rightwards then curving upwards
002935 Arrow pointing rightwards then curving downwards
002936 Arrow pointing downwards then curving leftwards
002937 Arrow pointing downwards then curving rightwards
002938 Right-side arc clockwise arrow
002939 Left-side arc anticlockwise arrow
00293A Top arc anticlockwise arrow
00293B Bottom arc anticlockwise arrow
00293C Top arc clockwise arrow with minus
00293D Top arc anticlockwise arrow with plus
00293E Lower right semicircular clockwise arrow
00293F Lower left semicircular anticlockwise arrow
002940 Anticlockwise closed circle arrow
002941 Clockwise closed circle arrow
002942 Rightwards arrow above short leftwards arrow
002943 Leftwards arrow above short rightwards arrow
002944 Short rightwards arrow above leftwards arrow
002945 Rightwards arrow with plus below
002946 Leftwards arrow with plus below
002947 Rightwards arrow through x
002948 Left right arrow through small circle
002949 Upwards two-headed arrow from small circle
00294A Left barb up right barb down harpoon
00294B Left barb down right barb up harpoon
00294C Up barb right down barb left harpoon
00294D Up barb left down barb right harpoon
00294E Left barb up right barb up harpoon
00294F Up barb right down barb right harpoon
002950 Left barb down right barb down harpoon
002951 Up barb left down barb left harpoon
002952 Leftwards harpoon with barb up to bar
002953 Rightwards harpoon with barb up to bar
002954 Upwards harpoon with barb right to bar
002955 Downwards harpoon with barb right to bar
002956 Leftwards harpoon with barb down to bar
002957 Rightwards harpoon with barb down to bar
002958 Upwards harpoon with barb left to bar
002959 Downwards harpoon with barb left to bar
00295A Leftwards harpoon with barb up from bar
00295B Rightwards harpoon with barb up from bar
00295C Upwards harpoon with barb right from bar
00295D Downwards harpoon with barb right from bar
00295E Leftwards harpoon with barb down from bar
00295F Rightwards harpoon with barb down from bar
002960 Upwards harpoon with barb left from bar
002961 Downwards harpoon with barb left from bar
002962 Leftwards harpoon with barb up above leftwards harpoon with barb down
002963 Upwards harpoon with barb left beside upwards harpoon with barb right
002964 Rightwards harpoon with barb up above rightwards harpoon with barb down
002965 Downwards harpoon with barb left beside downwards harpoon with barb right
002966 Leftwards harpoon with barb up above rightwards harpoon with barb up
002967 Leftwards harpoon with barb down above rightwards harpoon with barb down
002968 Rightwards harpoon with barb up above leftwards harpoon with barb up
002969 Rightwards harpoon with barb down above leftwards harpoon with barb down
00296A Leftwards harpoon with barb up above long dash
00296B Leftwards harpoon with barb down below long dash
00296C Rightwards harpoon with barb up above long dash
00296D Rightwards harpoon with barb down below long dash
00296E Upwards harpoon with barb left beside downwards harpoon with barb right
00296F Downwards harpoon with barb left beside upwards harpoon with barb right
002970 Right double arrow with rounded head
002971 Equals sign above rightwards arrow
002972 Tilde operator above rightwards arrow
002973 Leftwards arrow above tilde operator
002974 Rightwards arrow above tilde operator
002975 Rightwards arrow above almost equal to
002976 Less-than above leftwards arrow
002977 Leftwards arrow through less-than
002978 Greater-than above rightwards arrow
002979 Subset above rightwards arrow
00297A Leftwards arrow through subset
00297B Superset above leftwards arrow
00297C Left fish tail
00297D Right fish tail
00297E Up fish tail
00297F Down fish tail
002980 Triple vertical bar delimiter
002981 Z notation spot
002982 Z notation type colon
002983 Left white curly bracket
002984 Right white curly bracket
002985 Left white parenthesis
002986 Right white parenthesis
002987 Z notation left image bracket
002988 Z notation right image bracket
002989 Z notation left binding bracket
00298A Z notation right binding bracket
00298B Left square bracket with underbar
00298C Right square bracket with underbar
00298D Left square bracket with tick in top corner
00298E Right square bracket with tick in bottom corner
00298F Left square bracket with tick in bottom corner
002990 Right square bracket with tick in top corner
002991 Left angle bracket with dot
002992 Right angle bracket with dot
002993 Left arc less-than bracket
002994 Right arc greater-than bracket
002995 Double left arc greater-than bracket
002996 Double right arc less-than bracket
002997 Left black tortoise shell bracket
002998 Right black tortoise shell bracket
002999 Dotted fence
00299A Vertical zigzag line
00299B Measured angle opening left
00299C Right angle variant with square
00299D Measured right angle with dot
00299E Angle with s inside
00299F Acute angle
0029A0 Spherical angle opening left
0029A1 Spherical angle opening up
0029A2 Turned angle
0029A3 Reversed angle
0029A4 Angle with underbar
0029A5 Reversed angle with underbar
0029A6 Oblique angle opening up
0029A7 Oblique angle opening down
0029A8 Measured angle with open arm ending in arrow pointing up and right
0029A9 Measured angle with open arm ending in arrow pointing up and left
0029AA Measured angle with open arm ending in arrow pointing down and right
0029AB Measured angle with open arm ending in arrow pointing down and left
0029AC Measured angle with open arm ending in arrow pointing right and up
0029AD Measured angle with open arm ending in arrow pointing left and up
0029AE Measured angle with open arm ending in arrow pointing right and down
0029AF Measured angle with open arm ending in arrow pointing left and down
0029B0 Reversed empty set
0029B1 Empty set with overbar
0029B2 Empty set with small circle above
0029B3 Empty set with right arrow above
0029B4 Empty set with left arrow above
0029B5 Circle with horizontal bar
0029B6 Circled vertical bar
0029B7 Circled parallel
0029B8 Circled reverse solidus
0029B9 Circled perpendicular
0029BA Circle divided by horizontal bar and top half divided by vertical bar
0029BB Circle with superimposed x
0029BC Circled anticlockwise-rotated division sign
0029BD Up arrow through circle
0029BE Circled white bullet
0029BF Circled bullet
0029C0 Circled less-than
0029C1 Circled greater-than
0029C2 Circle with small circle to the right
0029C3 Circle with two horizontal strokes to the right
0029C4 Squared rising diagonal slash
0029C5 Squared falling diagonal slash
0029C6 Squared asterisk
0029C7 Squared small circle
0029C8 Squared square
0029C9 Two joined squares
0029CA Triangle with dot above
0029CB Triangle with underbar
0029CC S in triangle
0029CD Triangle with serifs at bottom
0029CE Right triangle above left triangle
0029CF Left triangle beside vertical bar
0029D0 Vertical bar beside right triangle
0029D1 Bowtie with left half black
0029D2 Bowtie with right half black
0029D3 Black bowtie
0029D4 Times with left half black
0029D5 Times with right half black
0029D6 White hourglass
0029D7 Black hourglass
0029D8 Left wiggly fence
0029D9 Right wiggly fence
0029DA Left double wiggly fence
0029DB Right double wiggly fence
0029DC Incomplete infinity
0029DD Tie over infinity
0029DE Infinity negated with vertical bar
0029DF Double-ended multimap
0029E0 Square with contoured outline
0029E1 Increases as
0029E2 Shuffle product
0029E3 Equals sign and slanted parallel
0029E4 Equals sign and slanted parallel with tilde above
0029E5 Identical to and slanted parallel
0029E6 Gleich stark
0029E7 Thermodynamic
0029E8 Down-pointing triangle with left half black
0029E9 Down-pointing triangle with right half black
0029EA Black diamond with down arrow
0029EB Black lozenge
0029EC White circle with down arrow
0029ED Black circle with down arrow
0029EE Error-barred white square
0029EF Error-barred black square
0029F0 Error-barred white diamond
0029F1 Error-barred black diamond
0029F2 Error-barred white circle
0029F3 Error-barred black circle
0029F4 Rule-delayed
0029F5 Reverse solidus operator
0029F6 Solidus with overbar
0029F7 Reverse solidus with horizontal stroke
0029F8 Big solidus
0029F9 Big reverse solidus
0029FA Double plus
0029FB Triple plus
0029FC Left-pointing curved angle bracket
0029FD Right-pointing curved angle bracket
0029FE Tiny
0029FF Miny
002A00 N-ary circled dot operator
002A01 N-ary circled plus operator
002A02 N-ary circled times operator
002A03 N-ary union operator with dot
002A04 N-ary union operator with plus
002A05 N-ary square intersection operator
002A06 N-ary square union operator
002A07 Two logical and operator
002A08 Two logical or operator
002A09 N-ary times operator
002A0A Modulo two sum
002A0B Summation with integral
002A0C Quadruple integral operator
002A0D Finite part integral
002A0E Integral with double stroke
002A0F Integral average with slash
002A10 Circulation function
002A11 Anticlockwise integration
002A12 Line integration with rectangular path around pole
002A13 Line integration with semicircular path around pole
002A14 Line integration not including the pole
002A15 Integral around a point operator
002A16 Quaternion integral operator
002A17 Integral with leftwards arrow with hook
002A18 Integral with times sign
002A19 Integral with intersection
002A1A Integral with union
002A1B Integral with overbar
002A1C Integral with underbar
002A1D Join
002A1E Large left triangle operator
002A1F Z notation schema composition
002A20 Z notation schema piping
002A21 Z notation schema projection
002A22 Plus sign with small circle above
002A23 Plus sign with circumflex accent above
002A24 Plus sign with tilde above
002A25 Plus sign with dot below
002A26 Plus sign with tilde below
002A27 Plus sign with subscript two
002A28 Plus sign with black triangle
002A29 Minus sign with comma above
002A2A Minus sign with dot below
002A2B Minus sign with falling dots
002A2C Minus sign with rising dots
002A2D Plus sign in left half circle
002A2E Plus sign in right half circle
002A2F Vector or cross product
002A30 Multiplication sign with dot above
002A31 Multiplication sign with underbar
002A32 Semidirect product with bottom closed
002A33 Smash product
002A34 Multiplication sign in left half circle
002A35 Multiplication sign in right half circle
002A36 Circled multiplication sign with circumflex accent
002A37 Multiplication sign in double circle
002A38 Circled division sign
002A39 Plus sign in triangle
002A3A Minus sign in triangle
002A3B Multiplication sign in triangle
002A3C Interior product
002A3D Righthand interior product
002A3E Z notation relational composition
002A3F Amalgamation or coproduct
002A40 Intersection with dot
002A41 Union with minus sign
002A42 Union with overbar
002A43 Intersection with overbar
002A44 Intersection with logical and
002A45 Union with logical or
002A46 Union above intersection
002A47 Intersection above union
002A48 Union above bar above intersection
002A49 Intersection above bar above union
002A4A Union beside and joined with union
002A4B Intersection beside and joined with intersection
002A4C Closed union with serifs
002A4D Closed intersection with serifs
002A4E Double square intersection
002A4F Double square union
002A50 Closed union with serifs and smash product
002A51 Logical and with dot above
002A52 Logical or with dot above
002A53 Double logical and
002A54 Double logical or
002A55 Two intersecting logical and
002A56 Two intersecting logical or
002A57 Sloping large or
002A58 Sloping large and
002A59 Logical or overlapping logical and
002A5A Logical and with middle stem
002A5B Logical or with middle stem
002A5C Logical and with horizontal dash
002A5D Logical or with horizontal dash
";

pub const NAMES_24: &'static str = "002A5E Logical and with double overbar
002A5F Logical and with underbar
002A60 Logical and with double underbar
002A61 Small vee with underbar
002A62 Logical or with double overbar
002A63 Logical or with double underbar
002A64 Z notation domain antirestriction
002A65 Z notation range antirestriction
002A66 Equals sign with dot below
002A67 Identical with dot above
002A68 Triple horizontal bar with double vertical stroke
002A69 Triple horizontal bar with triple vertical stroke
002A6A Tilde operator with dot above
002A6B Tilde operator with rising dots
002A6C Similar minus similar
002A6D Congruent with dot above
002A6E Equals with asterisk
002A6F Almost equal to with circumflex accent
002A70 Approximately equal or equal to
002A71 Equals sign above plus sign
002A72 Plus sign above equals sign
002A73 Equals sign above tilde operator
002A74 Double colon equal
002A75 Two consecutive equals signs
002A76 Three consecutive equals signs
002A77 Equals sign with two dots above and two dots below
002A78 Equivalent with four dots above
002A79 Less-than with circle inside
002A7A Greater-than with circle inside
002A7B Less-than with question mark above
002A7C Greater-than with question mark above
002A7D Less-than or slanted equal to
002A7E Greater-than or slanted equal to
002A7F Less-than or slanted equal to with dot inside
002A80 Greater-than or slanted equal to with dot inside
002A81 Less-than or slanted equal to with dot above
002A82 Greater-than or slanted equal to with dot above
002A83 Less-than or slanted equal to with dot above right
002A84 Greater-than or slanted equal to with dot above left
002A85 Less-than or approximate
002A86 Greater-than or approximate
002A87 Less-than and single-line not equal to
002A88 Greater-than and single-line not equal to
002A89 Less-than and not approximate
002A8A Greater-than and not approximate
002A8B Less-than above double-line equal above greater-than
002A8C Greater-than above double-line equal above less-than
002A8D Less-than above similar or equal
002A8E Greater-than above similar or equal
002A8F Less-than above similar above greater-than
002A90 Greater-than above similar above less-than
002A91 Less-than above greater-than above double-line equal
002A92 Greater-than above less-than above double-line equal
002A93 Less-than above slanted equal above greater-than above slanted equal
002A94 Greater-than above slanted equal above less-than above slanted equal
002A95 Slanted equal to or less-than
002A96 Slanted equal to or greater-than
002A97 Slanted equal to or less-than with dot inside
002A98 Slanted equal to or greater-than with dot inside
002A99 Double-line equal to or less-than
002A9A Double-line equal to or greater-than
002A9B Double-line slanted equal to or less-than
002A9C Double-line slanted equal to or greater-than
002A9D Similar or less-than
002A9E Similar or greater-than
002A9F Similar above less-than above equals sign
002AA0 Similar above greater-than above equals sign
002AA1 Double nested less-than
002AA2 Double nested greater-than
002AA3 Double nested less-than with underbar
002AA4 Greater-than overlapping less-than
002AA5 Greater-than beside less-than
002AA6 Less-than closed by curve
002AA7 Greater-than closed by curve
002AA8 Less-than closed by curve above slanted equal
002AA9 Greater-than closed by curve above slanted equal
002AAA Smaller than
002AAB Larger than
002AAC Smaller than or equal to
002AAD Larger than or equal to
002AAE Equals sign with bumpy above
002AAF Precedes above single-line equals sign
002AB0 Succeeds above single-line equals sign
002AB1 Precedes above single-line not equal to
002AB2 Succeeds above single-line not equal to
002AB3 Precedes above equals sign
002AB4 Succeeds above equals sign
002AB5 Precedes above not equal to
002AB6 Succeeds above not equal to
002AB7 Precedes above almost equal to
002AB8 Succeeds above almost equal to
002AB9 Precedes above not almost equal to
002ABA Succeeds above not almost equal to
002ABB Double precedes
002ABC Double succeeds
002ABD Subset with dot
002ABE Superset with dot
002ABF Subset with plus sign below
002AC0 Superset with plus sign below
002AC1 Subset with multiplication sign below
002AC2 Superset with multiplication sign below
002AC3 Subset of or equal to with dot above
002AC4 Superset of or equal to with dot above
002AC5 Subset of above equals sign
002AC6 Superset of above equals sign
002AC7 Subset of above tilde operator
002AC8 Superset of above tilde operator
002AC9 Subset of above almost equal to
002ACA Superset of above almost equal to
002ACB Subset of above not equal to
002ACC Superset of above not equal to
002ACD Square left open box operator
002ACE Square right open box operator
002ACF Closed subset
002AD0 Closed superset
002AD1 Closed subset or equal to
002AD2 Closed superset or equal to
002AD3 Subset above superset
002AD4 Superset above subset
002AD5 Subset above subset
002AD6 Superset above superset
002AD7 Superset beside subset
002AD8 Superset beside and joined by dash with subset
002AD9 Element of opening downwards
002ADA Pitchfork with tee top
002ADB Transversal intersection
002ADC Forking
002ADD Nonforking
002ADE Short left tack
002ADF Short down tack
002AE0 Short up tack
002AE1 Perpendicular with s
002AE2 Vertical bar triple right turnstile
002AE3 Double vertical bar left turnstile
002AE4 Vertical bar double left turnstile
002AE5 Double vertical bar double left turnstile
002AE6 Long dash from left member of double vertical
002AE7 Short down tack with overbar
002AE8 Short up tack with underbar
002AE9 Short up tack above short down tack
002AEA Double down tack
002AEB Double up tack
002AEC Double stroke not sign
002AED Reversed double stroke not sign
002AEE Does not divide with reversed negation slash
002AEF Vertical line with circle above
002AF0 Vertical line with circle below
002AF1 Down tack with circle below
002AF2 Parallel with horizontal stroke
002AF3 Parallel with tilde operator
002AF4 Triple vertical bar binary relation
002AF5 Triple vertical bar with horizontal stroke
002AF6 Triple colon operator
002AF7 Triple nested less-than
002AF8 Triple nested greater-than
002AF9 Double-line slanted less-than or equal to
002AFA Double-line slanted greater-than or equal to
002AFB Triple solidus binary relation
002AFC Large triple vertical bar operator
002AFD Double solidus operator
002AFE White vertical bar
002AFF N-ary white vertical bar
002B00 North east white arrow
002B01 North west white arrow
002B02 South east white arrow
002B03 South west white arrow
002B04 Left right white arrow
002B05 Leftwards black arrow
002B06 Upwards black arrow
002B07 Downwards black arrow
002B08 North east black arrow
002B09 North west black arrow
002B0A South east black arrow
002B0B South west black arrow
002B0C Left right black arrow
002B0D Up down black arrow
002B0E Rightwards arrow with tip downwards
002B0F Rightwards arrow with tip upwards
002B10 Leftwards arrow with tip downwards
002B11 Leftwards arrow with tip upwards
002B12 Square with top half black
002B13 Square with bottom half black
002B14 Square with upper right diagonal half black
002B15 Square with lower left diagonal half black
002B16 Diamond with left half black
002B17 Diamond with right half black
002B18 Diamond with top half black
002B19 Diamond with bottom half black
002B1A Dotted square
002B1B Black large square
002B1C White large square
002B1D Black very small square
002B1E White very small square
002B1F Black pentagon
002B20 White pentagon
002B21 White hexagon
002B22 Black hexagon
002B23 Horizontal black hexagon
002B24 Black large circle
002B25 Black medium diamond
002B26 White medium diamond
002B27 Black medium lozenge
002B28 White medium lozenge
002B29 Black small diamond
002B2A Black small lozenge
002B2B White small lozenge
002B2C Black horizontal ellipse
002B2D White horizontal ellipse
002B2E Black vertical ellipse
002B2F White vertical ellipse
002B30 Left arrow with small circle
002B31 Three leftwards arrows
002B32 Left arrow with circled plus
002B33 Long leftwards squiggle arrow
002B34 Leftwards two-headed arrow with vertical stroke
002B35 Leftwards two-headed arrow with double vertical stroke
002B36 Leftwards two-headed arrow from bar
002B37 Leftwards two-headed triple dash arrow
002B38 Leftwards arrow with dotted stem
002B39 Leftwards arrow with tail with vertical stroke
002B3A Leftwards arrow with tail with double vertical stroke
002B3B Leftwards two-headed arrow with tail
002B3C Leftwards two-headed arrow with tail with vertical stroke
002B3D Leftwards two-headed arrow with tail with double vertical stroke
002B3E Leftwards arrow through x
002B3F Wave arrow pointing directly left
002B40 Equals sign above leftwards arrow
002B41 Reverse tilde operator above leftwards arrow
002B42 Leftwards arrow above reverse almost equal to
002B43 Rightwards arrow through greater-than
002B44 Rightwards arrow through superset
002B45 Leftwards quadruple arrow
002B46 Rightwards quadruple arrow
002B47 Reverse tilde operator above rightwards arrow
002B48 Rightwards arrow above reverse almost equal to
002B49 Tilde operator above leftwards arrow
002B4A Leftwards arrow above almost equal to
002B4B Leftwards arrow above reverse tilde operator
002B4C Rightwards arrow above reverse tilde operator
002B4D Downwards triangle-headed zigzag arrow
002B4E Short slanted north arrow
002B4F Short backslanted south arrow
002B50 White medium star
002B51 Black small star
002B52 White small star
002B53 Black right-pointing pentagon
002B54 White right-pointing pentagon
002B55 Heavy large circle
002B56 Heavy oval with oval inside
002B57 Heavy circle with circle inside
002B58 Heavy circle
002B59 Heavy circled saltire
002B5A Slanted north arrow with hooked head
002B5B Backslanted south arrow with hooked tail
002B5C Slanted north arrow with horizontal tail
002B5D Backslanted south arrow with horizontal tail
002B5E Bent arrow pointing downwards then north east
002B5F Short bent arrow pointing downwards then north east
002B60 Leftwards triangle-headed arrow
002B61 Upwards triangle-headed arrow
002B62 Rightwards triangle-headed arrow
002B63 Downwards triangle-headed arrow
002B64 Left right triangle-headed arrow
002B65 Up down triangle-headed arrow
002B66 North west triangle-headed arrow
002B67 North east triangle-headed arrow
002B68 South east triangle-headed arrow
002B69 South west triangle-headed arrow
002B6A Leftwards triangle-headed dashed arrow
002B6B Upwards triangle-headed dashed arrow
002B6C Rightwards triangle-headed dashed arrow
002B6D Downwards triangle-headed dashed arrow
002B6E Clockwise triangle-headed open circle arrow
002B6F Anticlockwise triangle-headed open circle arrow
002B70 Leftwards triangle-headed arrow to bar
002B71 Upwards triangle-headed arrow to bar
002B72 Rightwards triangle-headed arrow to bar
002B73 Downwards triangle-headed arrow to bar
002B76 North west triangle-headed arrow to bar
002B77 North east triangle-headed arrow to bar
002B78 South east triangle-headed arrow to bar
002B79 South west triangle-headed arrow to bar
002B7A Leftwards triangle-headed arrow with double horizontal stroke
002B7B Upwards triangle-headed arrow with double horizontal stroke
002B7C Rightwards triangle-headed arrow with double horizontal stroke
002B7D Downwards triangle-headed arrow with double horizontal stroke
002B7E Horizontal tab key
002B7F Vertical tab key
002B80 Leftwards triangle-headed arrow over rightwards triangle-headed arrow
002B81 Upwards triangle-headed arrow leftwards of downwards triangle-headed arrow
002B82 Rightwards triangle-headed arrow over leftwards triangle-headed arrow
002B83 Downwards triangle-headed arrow leftwards of upwards triangle-headed arrow
002B84 Leftwards triangle-headed paired arrows
002B85 Upwards triangle-headed paired arrows
002B86 Rightwards triangle-headed paired arrows
002B87 Downwards triangle-headed paired arrows
002B88 Leftwards black circled white arrow
002B89 Upwards black circled white arrow
002B8A Rightwards black circled white arrow
002B8B Downwards black circled white arrow
002B8C Anticlockwise triangle-headed right u-shaped arrow
002B8D Anticlockwise triangle-headed bottom u-shaped arrow
002B8E Anticlockwise triangle-headed left u-shaped arrow
002B8F Anticlockwise triangle-headed top u-shaped arrow
002B90 Return left
002B91 Return right
002B92 Newline left
002B93 Newline right
002B94 Four corner arrows circling anticlockwise
002B95 Rightwards black arrow
002B97 Symbol for type a electronics
002B98 Three-d top-lighted leftwards equilateral arrowhead
002B99 Three-d right-lighted upwards equilateral arrowhead
002B9A Three-d top-lighted rightwards equilateral arrowhead
002B9B Three-d left-lighted downwards equilateral arrowhead
002B9C Black leftwards equilateral arrowhead
002B9D Black upwards equilateral arrowhead
002B9E Black rightwards equilateral arrowhead
002B9F Black downwards equilateral arrowhead
002BA0 Downwards triangle-headed arrow with long tip leftwards
002BA1 Downwards triangle-headed arrow with long tip rightwards
002BA2 Upwards triangle-headed arrow with long tip leftwards
002BA3 Upwards triangle-headed arrow with long tip rightwards
002BA4 Leftwards triangle-headed arrow with long tip upwards
002BA5 Rightwards triangle-headed arrow with long tip upwards
002BA6 Leftwards triangle-headed arrow with long tip downwards
002BA7 Rightwards triangle-headed arrow with long tip downwards
002BA8 Black curved downwards and leftwards arrow
002BA9 Black curved downwards and rightwards arrow
002BAA Black curved upwards and leftwards arrow
002BAB Black curved upwards and rightwards arrow
002BAC Black curved leftwards and upwards arrow
002BAD Black curved rightwards and upwards arrow
002BAE Black curved leftwards and downwards arrow
002BAF Black curved rightwards and downwards arrow
002BB0 Ribbon arrow down left
002BB1 Ribbon arrow down right
002BB2 Ribbon arrow up left
002BB3 Ribbon arrow up right
002BB4 Ribbon arrow left up
002BB5 Ribbon arrow right up
002BB6 Ribbon arrow left down
002BB7 Ribbon arrow right down
";

pub const NAMES_25: &'static str = "002BB8 Upwards white arrow from bar with horizontal bar
002BB9 Up arrowhead in a rectangle box
002BBA Overlapping white squares
002BBB Overlapping white and black squares
002BBC Overlapping black squares
002BBD Ballot box with light x
002BBE Circled x
002BBF Circled bold x
002BC0 Black square centred
002BC1 Black diamond centred
002BC2 Turned black pentagon
002BC3 Horizontal black octagon
002BC4 Black octagon
002BC5 Black medium up-pointing triangle centred
002BC6 Black medium down-pointing triangle centred
002BC7 Black medium left-pointing triangle centred
002BC8 Black medium right-pointing triangle centred
002BC9 Neptune form two
002BCA Top half black circle
002BCB Bottom half black circle
002BCC Light four pointed black cusp
002BCD Rotated light four pointed black cusp
002BCE White four pointed cusp
002BCF Rotated white four pointed cusp
002BD0 Square position indicator
002BD1 Uncertainty sign
002BD2 Group mark
002BD3 Pluto form two
002BD4 Pluto form three
002BD5 Pluto form four
002BD6 Pluto form five
002BD7 Transpluto
002BD8 Proserpina
002BD9 Astraea
002BDA Hygiea
002BDB Pholus
002BDC Nessus
002BDD White moon selena
002BDE Black diamond on cross
002BDF True light moon arta
002BE0 Cupido
002BE1 Hades
002BE2 Zeus
002BE3 Kronos
002BE4 Apollon
002BE5 Admetos
002BE6 Vulcanus
002BE7 Poseidon
002BE8 Left half black star
002BE9 Right half black star
002BEA Star with left half black
002BEB Star with right half black
002BEC Leftwards two-headed arrow with triangle arrowheads
002BED Upwards two-headed arrow with triangle arrowheads
002BEE Rightwards two-headed arrow with triangle arrowheads
002BEF Downwards two-headed arrow with triangle arrowheads
002BF0 Eris form one
002BF1 Eris form two
002BF2 Sedna
002BF3 Russian astrological symbol vigintile
002BF4 Russian astrological symbol novile
002BF5 Russian astrological symbol quintile
002BF6 Russian astrological symbol binovile
002BF7 Russian astrological symbol sentagon
002BF8 Russian astrological symbol tredecile
002BF9 Equals sign with infinity below
002BFA United symbol
002BFB Separated symbol
002BFC Doubled symbol
002BFD Passed symbol
002BFE Reversed right angle
002BFF Hellschreiber pause symbol
002C00 Glagolitic capital letter azu
002C01 Glagolitic capital letter buky
002C02 Glagolitic capital letter vede
002C03 Glagolitic capital letter glagoli
002C04 Glagolitic capital letter dobro
002C05 Glagolitic capital letter yestu
002C06 Glagolitic capital letter zhivete
002C07 Glagolitic capital letter dzelo
002C08 Glagolitic capital letter zemlja
002C09 Glagolitic capital letter izhe
002C0A Glagolitic capital letter initial izhe
002C0B Glagolitic capital letter i
002C0C Glagolitic capital letter djervi
002C0D Glagolitic capital letter kako
002C0E Glagolitic capital letter ljudije
002C0F Glagolitic capital letter myslite
002C10 Glagolitic capital letter nashi
002C11 Glagolitic capital letter onu
002C12 Glagolitic capital letter pokoji
002C13 Glagolitic capital letter ritsi
002C14 Glagolitic capital letter slovo
002C15 Glagolitic capital letter tvrido
002C16 Glagolitic capital letter uku
002C17 Glagolitic capital letter fritu
002C18 Glagolitic capital letter heru
002C19 Glagolitic capital letter otu
002C1A Glagolitic capital letter pe
002C1B Glagolitic capital letter shta
002C1C Glagolitic capital letter tsi
002C1D Glagolitic capital letter chrivi
002C1E Glagolitic capital letter sha
002C1F Glagolitic capital letter yeru
002C20 Glagolitic capital letter yeri
002C21 Glagolitic capital letter yati
002C22 Glagolitic capital letter spidery ha
002C23 Glagolitic capital letter yu
002C24 Glagolitic capital letter small yus
002C25 Glagolitic capital letter small yus with tail
002C26 Glagolitic capital letter yo
002C27 Glagolitic capital letter iotated small yus
002C28 Glagolitic capital letter big yus
002C29 Glagolitic capital letter iotated big yus
002C2A Glagolitic capital letter fita
002C2B Glagolitic capital letter izhitsa
002C2C Glagolitic capital letter shtapic
002C2D Glagolitic capital letter trokutasti a
002C2E Glagolitic capital letter latinate myslite
002C2F Glagolitic capital letter caudate chrivi
002C30 Glagolitic small letter azu
002C31 Glagolitic small letter buky
002C32 Glagolitic small letter vede
002C33 Glagolitic small letter glagoli
002C34 Glagolitic small letter dobro
002C35 Glagolitic small letter yestu
002C36 Glagolitic small letter zhivete
002C37 Glagolitic small letter dzelo
002C38 Glagolitic small letter zemlja
002C39 Glagolitic small letter izhe
002C3A Glagolitic small letter initial izhe
002C3B Glagolitic small letter i
002C3C Glagolitic small letter djervi
002C3D Glagolitic small letter kako
002C3E Glagolitic small letter ljudije
002C3F Glagolitic small letter myslite
002C40 Glagolitic small letter nashi
002C41 Glagolitic small letter onu
002C42 Glagolitic small letter pokoji
002C43 Glagolitic small letter ritsi
002C44 Glagolitic small letter slovo
002C45 Glagolitic small letter tvrido
002C46 Glagolitic small letter uku
002C47 Glagolitic small letter fritu
002C48 Glagolitic small letter heru
002C49 Glagolitic small letter otu
002C4A Glagolitic small letter pe
002C4B Glagolitic small letter shta
002C4C Glagolitic small letter tsi
002C4D Glagolitic small letter chrivi
002C4E Glagolitic small letter sha
002C4F Glagolitic small letter yeru
002C50 Glagolitic small letter yeri
002C51 Glagolitic small letter yati
002C52 Glagolitic small letter spidery ha
002C53 Glagolitic small letter yu
002C54 Glagolitic small letter small yus
002C55 Glagolitic small letter small yus with tail
002C56 Glagolitic small letter yo
002C57 Glagolitic small letter iotated small yus
002C58 Glagolitic small letter big yus
002C59 Glagolitic small letter iotated big yus
002C5A Glagolitic small letter fita
002C5B Glagolitic small letter izhitsa
002C5C Glagolitic small letter shtapic
002C5D Glagolitic small letter trokutasti a
002C5E Glagolitic small letter latinate myslite
002C5F Glagolitic small letter caudate chrivi
002C60 Latin capital letter l with double bar
002C61 Latin small letter l with double bar
002C62 Latin capital letter l with middle tilde
002C63 Latin capital letter p with stroke
002C64 Latin capital letter r with tail
002C65 Latin small letter a with stroke
002C66 Latin small letter t with diagonal stroke
002C67 Latin capital letter h with descender
002C68 Latin small letter h with descender
002C69 Latin capital letter k with descender
002C6A Latin small letter k with descender
002C6B Latin capital letter z with descender
002C6C Latin small letter z with descender
002C6D Latin capital letter alpha
002C6E Latin capital letter m with hook
002C6F Latin capital letter turned a
002C70 Latin capital letter turned alpha
002C71 Latin small letter v with right hook
002C72 Latin capital letter w with hook
002C73 Latin small letter w with hook
002C74 Latin small letter v with curl
002C75 Latin capital letter half h
002C76 Latin small letter half h
002C77 Latin small letter tailless phi
002C78 Latin small letter e with notch
002C79 Latin small letter turned r with tail
002C7A Latin small letter o with low ring inside
002C7B Latin letter small capital turned e
002C7C Latin subscript small letter j
002C7D Modifier letter capital v
002C7E Latin capital letter s with swash tail
002C7F Latin capital letter z with swash tail
002C80 Coptic capital letter alfa
002C81 Coptic small letter alfa
002C82 Coptic capital letter vida
002C83 Coptic small letter vida
002C84 Coptic capital letter gamma
002C85 Coptic small letter gamma
002C86 Coptic capital letter dalda
002C87 Coptic small letter dalda
002C88 Coptic capital letter eie
002C89 Coptic small letter eie
002C8A Coptic capital letter sou
002C8B Coptic small letter sou
002C8C Coptic capital letter zata
002C8D Coptic small letter zata
002C8E Coptic capital letter hate
002C8F Coptic small letter hate
002C90 Coptic capital letter thethe
002C91 Coptic small letter thethe
002C92 Coptic capital letter iauda
002C93 Coptic small letter iauda
002C94 Coptic capital letter kapa
002C95 Coptic small letter kapa
002C96 Coptic capital letter laula
002C97 Coptic small letter laula
002C98 Coptic capital letter mi
002C99 Coptic small letter mi
002C9A Coptic capital letter ni
002C9B Coptic small letter ni
002C9C Coptic capital letter ksi
002C9D Coptic small letter ksi
002C9E Coptic capital letter o
002C9F Coptic small letter o
002CA0 Coptic capital letter pi
002CA1 Coptic small letter pi
002CA2 Coptic capital letter ro
002CA3 Coptic small letter ro
002CA4 Coptic capital letter sima
002CA5 Coptic small letter sima
002CA6 Coptic capital letter tau
002CA7 Coptic small letter tau
002CA8 Coptic capital letter ua
002CA9 Coptic small letter ua
002CAA Coptic capital letter fi
002CAB Coptic small letter fi
002CAC Coptic capital letter khi
002CAD Coptic small letter khi
002CAE Coptic capital letter psi
002CAF Coptic small letter psi
002CB0 Coptic capital letter oou
002CB1 Coptic small letter oou
002CB2 Coptic capital letter dialect-p alef
002CB3 Coptic small letter dialect-p alef
002CB4 Coptic capital letter old coptic ain
002CB5 Coptic small letter old coptic ain
002CB6 Coptic capital letter cryptogrammic eie
002CB7 Coptic small letter cryptogrammic eie
002CB8 Coptic capital letter dialect-p kapa
002CB9 Coptic small letter dialect-p kapa
002CBA Coptic capital letter dialect-p ni
002CBB Coptic small letter dialect-p ni
002CBC Coptic capital letter cryptogrammic ni
002CBD Coptic small letter cryptogrammic ni
002CBE Coptic capital letter old coptic oou
002CBF Coptic small letter old coptic oou
002CC0 Coptic capital letter sampi
002CC1 Coptic small letter sampi
002CC2 Coptic capital letter crossed shei
002CC3 Coptic small letter crossed shei
002CC4 Coptic capital letter old coptic shei
002CC5 Coptic small letter old coptic shei
002CC6 Coptic capital letter old coptic esh
002CC7 Coptic small letter old coptic esh
002CC8 Coptic capital letter akhmimic khei
002CC9 Coptic small letter akhmimic khei
002CCA Coptic capital letter dialect-p hori
002CCB Coptic small letter dialect-p hori
002CCC Coptic capital letter old coptic hori
002CCD Coptic small letter old coptic hori
002CCE Coptic capital letter old coptic ha
002CCF Coptic small letter old coptic ha
002CD0 Coptic capital letter l-shaped ha
002CD1 Coptic small letter l-shaped ha
002CD2 Coptic capital letter old coptic hei
002CD3 Coptic small letter old coptic hei
002CD4 Coptic capital letter old coptic hat
002CD5 Coptic small letter old coptic hat
002CD6 Coptic capital letter old coptic gangia
002CD7 Coptic small letter old coptic gangia
002CD8 Coptic capital letter old coptic dja
002CD9 Coptic small letter old coptic dja
002CDA Coptic capital letter old coptic shima
002CDB Coptic small letter old coptic shima
002CDC Coptic capital letter old nubian shima
002CDD Coptic small letter old nubian shima
002CDE Coptic capital letter old nubian ngi
002CDF Coptic small letter old nubian ngi
002CE0 Coptic capital letter old nubian nyi
002CE1 Coptic small letter old nubian nyi
002CE2 Coptic capital letter old nubian wau
002CE3 Coptic small letter old nubian wau
002CE4 Coptic symbol kai
002CE5 Coptic symbol mi ro
002CE6 Coptic symbol pi ro
002CE7 Coptic symbol stauros
002CE8 Coptic symbol tau ro
002CE9 Coptic symbol khi ro
002CEA Coptic symbol shima sima
002CEB Coptic capital letter cryptogrammic shei
002CEC Coptic small letter cryptogrammic shei
002CED Coptic capital letter cryptogrammic gangia
002CEE Coptic small letter cryptogrammic gangia
002CEF Coptic combining ni above
002CF0 Coptic combining spiritus asper
002CF1 Coptic combining spiritus lenis
002CF2 Coptic capital letter bohairic khei
002CF3 Coptic small letter bohairic khei
002CF9 Coptic old nubian full stop
002CFA Coptic old nubian direct question mark
002CFB Coptic old nubian indirect question mark
002CFC Coptic old nubian verse divider
002CFD Coptic fraction one half
002CFE Coptic full stop
002CFF Coptic morphological divider
002D00 Georgian small letter an
002D01 Georgian small letter ban
002D02 Georgian small letter gan
002D03 Georgian small letter don
002D04 Georgian small letter en
002D05 Georgian small letter vin
002D06 Georgian small letter zen
002D07 Georgian small letter tan
002D08 Georgian small letter in
002D09 Georgian small letter kan
002D0A Georgian small letter las
002D0B Georgian small letter man
002D0C Georgian small letter nar
002D0D Georgian small letter on
002D0E Georgian small letter par
002D0F Georgian small letter zhar
002D10 Georgian small letter rae
002D11 Georgian small letter san
002D12 Georgian small letter tar
002D13 Georgian small letter un
002D14 Georgian small letter phar
002D15 Georgian small letter khar
002D16 Georgian small letter ghan
002D17 Georgian small letter qar
002D18 Georgian small letter shin
002D19 Georgian small letter chin
002D1A Georgian small letter can
002D1B Georgian small letter jil
002D1C Georgian small letter cil
002D1D Georgian small letter char
002D1E Georgian small letter xan
002D1F Georgian small letter jhan
002D20 Georgian small letter hae
002D21 Georgian small letter he
002D22 Georgian small letter hie
002D23 Georgian small letter we
002D24 Georgian small letter har
002D25 Georgian small letter hoe
002D27 Georgian small letter yn
002D2D Georgian small letter aen
002D30 Tifinagh letter ya
002D31 Tifinagh letter yab
002D32 Tifinagh letter yabh
002D33 Tifinagh letter yag
002D34 Tifinagh letter yaghh
002D35 Tifinagh letter berber academy yaj
002D36 Tifinagh letter yaj
002D37 Tifinagh letter yad
002D38 Tifinagh letter yadh
002D39 Tifinagh letter yadd
002D3A Tifinagh letter yaddh
002D3B Tifinagh letter yey
002D3C Tifinagh letter yaf
002D3D Tifinagh letter yak
002D3E Tifinagh letter tuareg yak
002D3F Tifinagh letter yakhh
002D40 Tifinagh letter yah
002D41 Tifinagh letter berber academy yah
002D42 Tifinagh letter tuareg yah
002D43 Tifinagh letter yahh
002D44 Tifinagh letter yaa
002D45 Tifinagh letter yakh
002D46 Tifinagh letter tuareg yakh
002D47 Tifinagh letter yaq
002D48 Tifinagh letter tuareg yaq
002D49 Tifinagh letter yi
";

pub const NAMES_26: &'static str = "002D4A Tifinagh letter yazh
002D4B Tifinagh letter ahaggar yazh
002D4C Tifinagh letter tuareg yazh
002D4D Tifinagh letter yal
002D4E Tifinagh letter yam
002D4F Tifinagh letter yan
002D50 Tifinagh letter tuareg yagn
002D51 Tifinagh letter tuareg yang
002D52 Tifinagh letter yap
002D53 Tifinagh letter yu
002D54 Tifinagh letter yar
002D55 Tifinagh letter yarr
002D56 Tifinagh letter yagh
002D57 Tifinagh letter tuareg yagh
002D58 Tifinagh letter ayer yagh
002D59 Tifinagh letter yas
002D5A Tifinagh letter yass
002D5B Tifinagh letter yash
002D5C Tifinagh letter yat
002D5D Tifinagh letter yath
002D5E Tifinagh letter yach
002D5F Tifinagh letter yatt
002D60 Tifinagh letter yav
002D61 Tifinagh letter yaw
002D62 Tifinagh letter yay
002D63 Tifinagh letter yaz
002D64 Tifinagh letter tawellemet yaz
002D65 Tifinagh letter yazz
002D66 Tifinagh letter ye
002D67 Tifinagh letter yo
002D6F Tifinagh modifier letter labialization mark
002D70 Tifinagh separator mark
002D7F Tifinagh consonant joiner
002D80 Ethiopic syllable loa
002D81 Ethiopic syllable moa
002D82 Ethiopic syllable roa
002D83 Ethiopic syllable soa
002D84 Ethiopic syllable shoa
002D85 Ethiopic syllable boa
002D86 Ethiopic syllable toa
002D87 Ethiopic syllable coa
002D88 Ethiopic syllable noa
002D89 Ethiopic syllable nyoa
002D8A Ethiopic syllable glottal oa
002D8B Ethiopic syllable zoa
002D8C Ethiopic syllable doa
002D8D Ethiopic syllable ddoa
002D8E Ethiopic syllable joa
002D8F Ethiopic syllable thoa
002D90 Ethiopic syllable choa
002D91 Ethiopic syllable phoa
002D92 Ethiopic syllable poa
002D93 Ethiopic syllable ggwa
002D94 Ethiopic syllable ggwi
002D95 Ethiopic syllable ggwee
002D96 Ethiopic syllable ggwe
002DA0 Ethiopic syllable ssa
002DA1 Ethiopic syllable ssu
002DA2 Ethiopic syllable ssi
002DA3 Ethiopic syllable ssaa
002DA4 Ethiopic syllable ssee
002DA5 Ethiopic syllable sse
002DA6 Ethiopic syllable sso
002DA8 Ethiopic syllable cca
002DA9 Ethiopic syllable ccu
002DAA Ethiopic syllable cci
002DAB Ethiopic syllable ccaa
002DAC Ethiopic syllable ccee
002DAD Ethiopic syllable cce
002DAE Ethiopic syllable cco
002DB0 Ethiopic syllable zza
002DB1 Ethiopic syllable zzu
002DB2 Ethiopic syllable zzi
002DB3 Ethiopic syllable zzaa
002DB4 Ethiopic syllable zzee
002DB5 Ethiopic syllable zze
002DB6 Ethiopic syllable zzo
002DB8 Ethiopic syllable ccha
002DB9 Ethiopic syllable cchu
002DBA Ethiopic syllable cchi
002DBB Ethiopic syllable cchaa
002DBC Ethiopic syllable cchee
002DBD Ethiopic syllable cche
002DBE Ethiopic syllable ccho
002DC0 Ethiopic syllable qya
002DC1 Ethiopic syllable qyu
002DC2 Ethiopic syllable qyi
002DC3 Ethiopic syllable qyaa
002DC4 Ethiopic syllable qyee
002DC5 Ethiopic syllable qye
002DC6 Ethiopic syllable qyo
002DC8 Ethiopic syllable kya
002DC9 Ethiopic syllable kyu
002DCA Ethiopic syllable kyi
002DCB Ethiopic syllable kyaa
002DCC Ethiopic syllable kyee
002DCD Ethiopic syllable kye
002DCE Ethiopic syllable kyo
002DD0 Ethiopic syllable xya
002DD1 Ethiopic syllable xyu
002DD2 Ethiopic syllable xyi
002DD3 Ethiopic syllable xyaa
002DD4 Ethiopic syllable xyee
002DD5 Ethiopic syllable xye
002DD6 Ethiopic syllable xyo
002DD8 Ethiopic syllable gya
002DD9 Ethiopic syllable gyu
002DDA Ethiopic syllable gyi
002DDB Ethiopic syllable gyaa
002DDC Ethiopic syllable gyee
002DDD Ethiopic syllable gye
002DDE Ethiopic syllable gyo
002DE0 Combining cyrillic letter be
002DE1 Combining cyrillic letter ve
002DE2 Combining cyrillic letter ghe
002DE3 Combining cyrillic letter de
002DE4 Combining cyrillic letter zhe
002DE5 Combining cyrillic letter ze
002DE6 Combining cyrillic letter ka
002DE7 Combining cyrillic letter el
002DE8 Combining cyrillic letter em
002DE9 Combining cyrillic letter en
002DEA Combining cyrillic letter o
002DEB Combining cyrillic letter pe
002DEC Combining cyrillic letter er
002DED Combining cyrillic letter es
002DEE Combining cyrillic letter te
002DEF Combining cyrillic letter ha
002DF0 Combining cyrillic letter tse
002DF1 Combining cyrillic letter che
002DF2 Combining cyrillic letter sha
002DF3 Combining cyrillic letter shcha
002DF4 Combining cyrillic letter fita
002DF5 Combining cyrillic letter es-te
002DF6 Combining cyrillic letter a
002DF7 Combining cyrillic letter ie
002DF8 Combining cyrillic letter djerv
002DF9 Combining cyrillic letter monograph uk
002DFA Combining cyrillic letter yat
002DFB Combining cyrillic letter yu
002DFC Combining cyrillic letter iotified a
002DFD Combining cyrillic letter little yus
002DFE Combining cyrillic letter big yus
002DFF Combining cyrillic letter iotified big yus
002E00 Right angle substitution marker
002E01 Right angle dotted substitution marker
002E02 Left substitution bracket
002E03 Right substitution bracket
002E04 Left dotted substitution bracket
002E05 Right dotted substitution bracket
002E06 Raised interpolation marker
002E07 Raised dotted interpolation marker
002E08 Dotted transposition marker
002E09 Left transposition bracket
002E0A Right transposition bracket
002E0B Raised square
002E0C Left raised omission bracket
002E0D Right raised omission bracket
002E0E Editorial coronis
002E0F Paragraphos
002E10 Forked paragraphos
002E11 Reversed forked paragraphos
002E12 Hypodiastole
002E13 Dotted obelos
002E14 Downwards ancora
002E15 Upwards ancora
002E16 Dotted right-pointing angle
002E17 Double oblique hyphen
002E18 Inverted interrobang
002E19 Palm branch
002E1A Hyphen with diaeresis
002E1B Tilde with ring above
002E1C Left low paraphrase bracket
002E1D Right low paraphrase bracket
002E1E Tilde with dot above
002E1F Tilde with dot below
002E20 Left vertical bar with quill
002E21 Right vertical bar with quill
002E22 Top left half bracket
002E23 Top right half bracket
002E24 Bottom left half bracket
002E25 Bottom right half bracket
002E26 Left sideways u bracket
002E27 Right sideways u bracket
002E28 Left double parenthesis
002E29 Right double parenthesis
002E2A Two dots over one dot punctuation
002E2B One dot over two dots punctuation
002E2C Squared four dot punctuation
002E2D Five dot mark
002E2E Reversed question mark
002E2F Vertical tilde
002E30 Ring point
002E31 Word separator middle dot
002E32 Turned comma
002E33 Raised dot
002E34 Raised comma
002E35 Turned semicolon
002E36 Dagger with left guard
002E37 Dagger with right guard
002E38 Turned dagger
002E39 Top half section sign
002E3A Two-em dash
002E3B Three-em dash
002E3C Stenographic full stop
002E3D Vertical six dots
002E3E Wiggly vertical line
002E3F Capitulum
002E40 Double hyphen
002E41 Reversed comma
002E42 Double low-reversed-9 quotation mark
002E43 Dash with left upturn
002E44 Double suspension mark
002E45 Inverted low kavyka
002E46 Inverted low kavyka with kavyka above
002E47 Low kavyka
002E48 Low kavyka with dot
002E49 Double stacked comma
002E4A Dotted solidus
002E4B Triple dagger
002E4C Medieval comma
002E4D Paragraphus mark
002E4E Punctus elevatus mark
002E4F Cornish verse divider
002E50 Cross patty with right crossbar
002E51 Cross patty with left crossbar
002E52 Tironian sign capital et
002E53 Medieval exclamation mark
002E54 Medieval question mark
002E55 Left square bracket with stroke
002E56 Right square bracket with stroke
002E57 Left square bracket with double stroke
002E58 Right square bracket with double stroke
002E59 Top half left parenthesis
002E5A Top half right parenthesis
002E5B Bottom half left parenthesis
002E5C Bottom half right parenthesis
002E5D Oblique hyphen
002E80 Cjk radical repeat
002E81 Cjk radical cliff
002E82 Cjk radical second one
002E83 Cjk radical second two
002E84 Cjk radical second three
002E85 Cjk radical person
002E86 Cjk radical box
002E87 Cjk radical table
002E88 Cjk radical knife one
002E89 Cjk radical knife two
002E8A Cjk radical divination
002E8B Cjk radical seal
002E8C Cjk radical small one
002E8D Cjk radical small two
002E8E Cjk radical lame one
002E8F Cjk radical lame two
002E90 Cjk radical lame three
002E91 Cjk radical lame four
002E92 Cjk radical snake
002E93 Cjk radical thread
002E94 Cjk radical snout one
002E95 Cjk radical snout two
002E96 Cjk radical heart one
002E97 Cjk radical heart two
002E98 Cjk radical hand
002E99 Cjk radical rap
002E9B Cjk radical choke
002E9C Cjk radical sun
002E9D Cjk radical moon
002E9E Cjk radical death
002E9F Cjk radical mother
002EA0 Cjk radical civilian
002EA1 Cjk radical water one
002EA2 Cjk radical water two
002EA3 Cjk radical fire
002EA4 Cjk radical paw one
002EA5 Cjk radical paw two
002EA6 Cjk radical simplified half tree trunk
002EA7 Cjk radical cow
002EA8 Cjk radical dog
002EA9 Cjk radical jade
002EAA Cjk radical bolt of cloth
002EAB Cjk radical eye
002EAC Cjk radical spirit one
002EAD Cjk radical spirit two
002EAE Cjk radical bamboo
002EAF Cjk radical silk
002EB0 Cjk radical c-simplified silk
002EB1 Cjk radical net one
002EB2 Cjk radical net two
002EB3 Cjk radical net three
002EB4 Cjk radical net four
002EB5 Cjk radical mesh
002EB6 Cjk radical sheep
002EB7 Cjk radical ram
002EB8 Cjk radical ewe
002EB9 Cjk radical old
002EBA Cjk radical brush one
002EBB Cjk radical brush two
002EBC Cjk radical meat
002EBD Cjk radical mortar
002EBE Cjk radical grass one
002EBF Cjk radical grass two
002EC0 Cjk radical grass three
002EC1 Cjk radical tiger
002EC2 Cjk radical clothes
002EC3 Cjk radical west one
002EC4 Cjk radical west two
002EC5 Cjk radical c-simplified see
002EC6 Cjk radical simplified horn
002EC7 Cjk radical horn
002EC8 Cjk radical c-simplified speech
002EC9 Cjk radical c-simplified shell
002ECA Cjk radical foot
002ECB Cjk radical c-simplified cart
002ECC Cjk radical simplified walk
002ECD Cjk radical walk one
002ECE Cjk radical walk two
002ECF Cjk radical city
002ED0 Cjk radical c-simplified gold
002ED1 Cjk radical long one
002ED2 Cjk radical long two
002ED3 Cjk radical c-simplified long
002ED4 Cjk radical c-simplified gate
002ED5 Cjk radical mound one
002ED6 Cjk radical mound two
002ED7 Cjk radical rain
002ED8 Cjk radical blue
002ED9 Cjk radical c-simplified tanned leather
002EDA Cjk radical c-simplified leaf
002EDB Cjk radical c-simplified wind
002EDC Cjk radical c-simplified fly
002EDD Cjk radical eat one
002EDE Cjk radical eat two
002EDF Cjk radical eat three
002EE0 Cjk radical c-simplified eat
002EE1 Cjk radical head
002EE2 Cjk radical c-simplified horse
002EE3 Cjk radical bone
002EE4 Cjk radical ghost
002EE5 Cjk radical c-simplified fish
002EE6 Cjk radical c-simplified bird
002EE7 Cjk radical c-simplified salt
002EE8 Cjk radical simplified wheat
002EE9 Cjk radical simplified yellow
002EEA Cjk radical c-simplified frog
002EEB Cjk radical j-simplified even
002EEC Cjk radical c-simplified even
002EED Cjk radical j-simplified tooth
002EEE Cjk radical c-simplified tooth
002EEF Cjk radical j-simplified dragon
002EF0 Cjk radical c-simplified dragon
002EF1 Cjk radical turtle
002EF2 Cjk radical j-simplified turtle
002EF3 Cjk radical c-simplified turtle
002F00 Kangxi radical one
002F01 Kangxi radical line
002F02 Kangxi radical dot
002F03 Kangxi radical slash
002F04 Kangxi radical second
002F05 Kangxi radical hook
002F06 Kangxi radical two
002F07 Kangxi radical lid
002F08 Kangxi radical man
002F09 Kangxi radical legs
002F0A Kangxi radical enter
002F0B Kangxi radical eight
002F0C Kangxi radical down box
002F0D Kangxi radical cover
002F0E Kangxi radical ice
002F0F Kangxi radical table
002F10 Kangxi radical open box
002F11 Kangxi radical knife
002F12 Kangxi radical power
002F13 Kangxi radical wrap
002F14 Kangxi radical spoon
002F15 Kangxi radical right open box
002F16 Kangxi radical hiding enclosure
002F17 Kangxi radical ten
002F18 Kangxi radical divination
002F19 Kangxi radical seal
002F1A Kangxi radical cliff
002F1B Kangxi radical private
002F1C Kangxi radical again
002F1D Kangxi radical mouth
002F1E Kangxi radical enclosure
002F1F Kangxi radical earth
002F20 Kangxi radical scholar
002F21 Kangxi radical go
002F22 Kangxi radical go slowly
002F23 Kangxi radical evening
002F24 Kangxi radical big
002F25 Kangxi radical woman
002F26 Kangxi radical child
002F27 Kangxi radical roof
002F28 Kangxi radical inch
002F29 Kangxi radical small
002F2A Kangxi radical lame
002F2B Kangxi radical corpse
002F2C Kangxi radical sprout
002F2D Kangxi radical mountain
002F2E Kangxi radical river
002F2F Kangxi radical work
002F30 Kangxi radical oneself
002F31 Kangxi radical turban
002F32 Kangxi radical dry
002F33 Kangxi radical short thread
002F34 Kangxi radical dotted cliff
002F35 Kangxi radical long stride
002F36 Kangxi radical two hands
002F37 Kangxi radical shoot
002F38 Kangxi radical bow
002F39 Kangxi radical snout
002F3A Kangxi radical bristle
002F3B Kangxi radical step
002F3C Kangxi radical heart
002F3D Kangxi radical halberd
002F3E Kangxi radical door
002F3F Kangxi radical hand
002F40 Kangxi radical branch
002F41 Kangxi radical rap
002F42 Kangxi radical script
002F43 Kangxi radical dipper
002F44 Kangxi radical axe
002F45 Kangxi radical square
002F46 Kangxi radical not
002F47 Kangxi radical sun
002F48 Kangxi radical say
002F49 Kangxi radical moon
002F4A Kangxi radical tree
002F4B Kangxi radical lack
002F4C Kangxi radical stop
002F4D Kangxi radical death
002F4E Kangxi radical weapon
002F4F Kangxi radical do not
002F50 Kangxi radical compare
002F51 Kangxi radical fur
002F52 Kangxi radical clan
002F53 Kangxi radical steam
002F54 Kangxi radical water
002F55 Kangxi radical fire
002F56 Kangxi radical claw
002F57 Kangxi radical father
002F58 Kangxi radical double x
002F59 Kangxi radical half tree trunk
002F5A Kangxi radical slice
002F5B Kangxi radical fang
002F5C Kangxi radical cow
002F5D Kangxi radical dog
002F5E Kangxi radical profound
002F5F Kangxi radical jade
002F60 Kangxi radical melon
002F61 Kangxi radical tile
002F62 Kangxi radical sweet
002F63 Kangxi radical life
002F64 Kangxi radical use
002F65 Kangxi radical field
002F66 Kangxi radical bolt of cloth
002F67 Kangxi radical sickness
002F68 Kangxi radical dotted tent
002F69 Kangxi radical white
002F6A Kangxi radical skin
002F6B Kangxi radical dish
002F6C Kangxi radical eye
002F6D Kangxi radical spear
002F6E Kangxi radical arrow
002F6F Kangxi radical stone
";

pub const NAMES_27: &'static str = "002F70 Kangxi radical spirit
002F71 Kangxi radical track
002F72 Kangxi radical grain
002F73 Kangxi radical cave
002F74 Kangxi radical stand
002F75 Kangxi radical bamboo
002F76 Kangxi radical rice
002F77 Kangxi radical silk
002F78 Kangxi radical jar
002F79 Kangxi radical net
002F7A Kangxi radical sheep
002F7B Kangxi radical feather
002F7C Kangxi radical old
002F7D Kangxi radical and
002F7E Kangxi radical plow
002F7F Kangxi radical ear
002F80 Kangxi radical brush
002F81 Kangxi radical meat
002F82 Kangxi radical minister
002F83 Kangxi radical self
002F84 Kangxi radical arrive
002F85 Kangxi radical mortar
002F86 Kangxi radical tongue
002F87 Kangxi radical oppose
002F88 Kangxi radical boat
002F89 Kangxi radical stopping
002F8A Kangxi radical color
002F8B Kangxi radical grass
002F8C Kangxi radical tiger
002F8D Kangxi radical insect
002F8E Kangxi radical blood
002F8F Kangxi radical walk enclosure
002F90 Kangxi radical clothes
002F91 Kangxi radical west
002F92 Kangxi radical see
002F93 Kangxi radical horn
002F94 Kangxi radical speech
002F95 Kangxi radical valley
002F96 Kangxi radical bean
002F97 Kangxi radical pig
002F98 Kangxi radical badger
002F99 Kangxi radical shell
002F9A Kangxi radical red
002F9B Kangxi radical run
002F9C Kangxi radical foot
002F9D Kangxi radical body
002F9E Kangxi radical cart
002F9F Kangxi radical bitter
002FA0 Kangxi radical morning
002FA1 Kangxi radical walk
002FA2 Kangxi radical city
002FA3 Kangxi radical wine
002FA4 Kangxi radical distinguish
002FA5 Kangxi radical village
002FA6 Kangxi radical gold
002FA7 Kangxi radical long
002FA8 Kangxi radical gate
002FA9 Kangxi radical mound
002FAA Kangxi radical slave
002FAB Kangxi radical short tailed bird
002FAC Kangxi radical rain
002FAD Kangxi radical blue
002FAE Kangxi radical wrong
002FAF Kangxi radical face
002FB0 Kangxi radical leather
002FB1 Kangxi radical tanned leather
002FB2 Kangxi radical leek
002FB3 Kangxi radical sound
002FB4 Kangxi radical leaf
002FB5 Kangxi radical wind
002FB6 Kangxi radical fly
002FB7 Kangxi radical eat
002FB8 Kangxi radical head
002FB9 Kangxi radical fragrant
002FBA Kangxi radical horse
002FBB Kangxi radical bone
002FBC Kangxi radical tall
002FBD Kangxi radical hair
002FBE Kangxi radical fight
002FBF Kangxi radical sacrificial wine
002FC0 Kangxi radical cauldron
002FC1 Kangxi radical ghost
002FC2 Kangxi radical fish
002FC3 Kangxi radical bird
002FC4 Kangxi radical salt
002FC5 Kangxi radical deer
002FC6 Kangxi radical wheat
002FC7 Kangxi radical hemp
002FC8 Kangxi radical yellow
002FC9 Kangxi radical millet
002FCA Kangxi radical black
002FCB Kangxi radical embroidery
002FCC Kangxi radical frog
002FCD Kangxi radical tripod
002FCE Kangxi radical drum
002FCF Kangxi radical rat
002FD0 Kangxi radical nose
002FD1 Kangxi radical even
002FD2 Kangxi radical tooth
002FD3 Kangxi radical dragon
002FD4 Kangxi radical turtle
002FD5 Kangxi radical flute
002FF0 Ideographic description character left to right
002FF1 Ideographic description character above to below
002FF2 Ideographic description character left to middle and right
002FF3 Ideographic description character above to middle and below
002FF4 Ideographic description character full surround
002FF5 Ideographic description character surround from above
002FF6 Ideographic description character surround from below
002FF7 Ideographic description character surround from left
002FF8 Ideographic description character surround from upper left
002FF9 Ideographic description character surround from upper right
002FFA Ideographic description character surround from lower left
002FFB Ideographic description character overlaid
003000 Ideographic space
003001 Ideographic comma
003002 Ideographic full stop
003003 Ditto mark
003004 Japanese industrial standard symbol
003005 Ideographic iteration mark
003006 Ideographic closing mark
003007 Ideographic number zero
003008 Left angle bracket
003009 Right angle bracket
00300A Left double angle bracket
00300B Right double angle bracket
00300C Left corner bracket
00300D Right corner bracket
00300E Left white corner bracket
00300F Right white corner bracket
003010 Left black lenticular bracket
003011 Right black lenticular bracket
003012 Postal mark
003013 Geta mark
003014 Left tortoise shell bracket
003015 Right tortoise shell bracket
003016 Left white lenticular bracket
003017 Right white lenticular bracket
003018 Left white tortoise shell bracket
003019 Right white tortoise shell bracket
00301A Left white square bracket
00301B Right white square bracket
00301C Wave dash
00301D Reversed double prime quotation mark
00301E Double prime quotation mark
00301F Low double prime quotation mark
003020 Postal mark face
003021 Hangzhou numeral one
003022 Hangzhou numeral two
003023 Hangzhou numeral three
003024 Hangzhou numeral four
003025 Hangzhou numeral five
003026 Hangzhou numeral six
003027 Hangzhou numeral seven
003028 Hangzhou numeral eight
003029 Hangzhou numeral nine
00302A Ideographic level tone mark
00302B Ideographic rising tone mark
00302C Ideographic departing tone mark
00302D Ideographic entering tone mark
00302E Hangul single dot tone mark
00302F Hangul double dot tone mark
003030 Wavy dash
003031 Vertical kana repeat mark
003032 Vertical kana repeat with voiced sound mark
003033 Vertical kana repeat mark upper half
003034 Vertical kana repeat with voiced sound mark upper half
003035 Vertical kana repeat mark lower half
003036 Circled postal mark
003037 Ideographic telegraph line feed separator symbol
003038 Hangzhou numeral ten
003039 Hangzhou numeral twenty
00303A Hangzhou numeral thirty
00303B Vertical ideographic iteration mark
00303C Masu mark
00303D Part alternation mark
00303E Ideographic variation indicator
00303F Ideographic half fill space
003041 Hiragana letter small a
003042 Hiragana letter a
003043 Hiragana letter small i
003044 Hiragana letter i
003045 Hiragana letter small u
003046 Hiragana letter u
003047 Hiragana letter small e
003048 Hiragana letter e
003049 Hiragana letter small o
00304A Hiragana letter o
00304B Hiragana letter ka
00304C Hiragana letter ga
00304D Hiragana letter ki
00304E Hiragana letter gi
00304F Hiragana letter ku
003050 Hiragana letter gu
003051 Hiragana letter ke
003052 Hiragana letter ge
003053 Hiragana letter ko
003054 Hiragana letter go
003055 Hiragana letter sa
003056 Hiragana letter za
003057 Hiragana letter si
003058 Hiragana letter zi
003059 Hiragana letter su
00305A Hiragana letter zu
00305B Hiragana letter se
00305C Hiragana letter ze
00305D Hiragana letter so
00305E Hiragana letter zo
00305F Hiragana letter ta
003060 Hiragana letter da
003061 Hiragana letter ti
003062 Hiragana letter di
003063 Hiragana letter small tu
003064 Hiragana letter tu
003065 Hiragana letter du
003066 Hiragana letter te
003067 Hiragana letter de
003068 Hiragana letter to
003069 Hiragana letter do
00306A Hiragana letter na
00306B Hiragana letter ni
00306C Hiragana letter nu
00306D Hiragana letter ne
00306E Hiragana letter no
00306F Hiragana letter ha
003070 Hiragana letter ba
003071 Hiragana letter pa
003072 Hiragana letter hi
003073 Hiragana letter bi
003074 Hiragana letter pi
003075 Hiragana letter hu
003076 Hiragana letter bu
003077 Hiragana letter pu
003078 Hiragana letter he
003079 Hiragana letter be
00307A Hiragana letter pe
00307B Hiragana letter ho
00307C Hiragana letter bo
00307D Hiragana letter po
00307E Hiragana letter ma
00307F Hiragana letter mi
003080 Hiragana letter mu
003081 Hiragana letter me
003082 Hiragana letter mo
003083 Hiragana letter small ya
003084 Hiragana letter ya
003085 Hiragana letter small yu
003086 Hiragana letter yu
003087 Hiragana letter small yo
003088 Hiragana letter yo
003089 Hiragana letter ra
00308A Hiragana letter ri
00308B Hiragana letter ru
00308C Hiragana letter re
00308D Hiragana letter ro
00308E Hiragana letter small wa
00308F Hiragana letter wa
003090 Hiragana letter wi
003091 Hiragana letter we
003092 Hiragana letter wo
003093 Hiragana letter n
003094 Hiragana letter vu
003095 Hiragana letter small ka
003096 Hiragana letter small ke
003099 Combining katakana-hiragana voiced sound mark
00309A Combining katakana-hiragana semi-voiced sound mark
00309B Katakana-hiragana voiced sound mark
00309C Katakana-hiragana semi-voiced sound mark
00309D Hiragana iteration mark
00309E Hiragana voiced iteration mark
00309F Hiragana digraph yori
0030A0 Katakana-hiragana double hyphen
0030A1 Katakana letter small a
0030A2 Katakana letter a
0030A3 Katakana letter small i
0030A4 Katakana letter i
0030A5 Katakana letter small u
0030A6 Katakana letter u
0030A7 Katakana letter small e
0030A8 Katakana letter e
0030A9 Katakana letter small o
0030AA Katakana letter o
0030AB Katakana letter ka
0030AC Katakana letter ga
0030AD Katakana letter ki
0030AE Katakana letter gi
0030AF Katakana letter ku
0030B0 Katakana letter gu
0030B1 Katakana letter ke
0030B2 Katakana letter ge
0030B3 Katakana letter ko
0030B4 Katakana letter go
0030B5 Katakana letter sa
0030B6 Katakana letter za
0030B7 Katakana letter si
0030B8 Katakana letter zi
0030B9 Katakana letter su
0030BA Katakana letter zu
0030BB Katakana letter se
0030BC Katakana letter ze
0030BD Katakana letter so
0030BE Katakana letter zo
0030BF Katakana letter ta
0030C0 Katakana letter da
0030C1 Katakana letter ti
0030C2 Katakana letter di
0030C3 Katakana letter small tu
0030C4 Katakana letter tu
0030C5 Katakana letter du
0030C6 Katakana letter te
0030C7 Katakana letter de
0030C8 Katakana letter to
0030C9 Katakana letter do
0030CA Katakana letter na
0030CB Katakana letter ni
0030CC Katakana letter nu
0030CD Katakana letter ne
0030CE Katakana letter no
0030CF Katakana letter ha
0030D0 Katakana letter ba
0030D1 Katakana letter pa
0030D2 Katakana letter hi
0030D3 Katakana letter bi
0030D4 Katakana letter pi
0030D5 Katakana letter hu
0030D6 Katakana letter bu
0030D7 Katakana letter pu
0030D8 Katakana letter he
0030D9 Katakana letter be
0030DA Katakana letter pe
0030DB Katakana letter ho
0030DC Katakana letter bo
0030DD Katakana letter po
0030DE Katakana letter ma
0030DF Katakana letter mi
0030E0 Katakana letter mu
0030E1 Katakana letter me
0030E2 Katakana letter mo
0030E3 Katakana letter small ya
0030E4 Katakana letter ya
0030E5 Katakana letter small yu
0030E6 Katakana letter yu
0030E7 Katakana letter small yo
0030E8 Katakana letter yo
0030E9 Katakana letter ra
0030EA Katakana letter ri
0030EB Katakana letter ru
0030EC Katakana letter re
0030ED Katakana letter ro
0030EE Katakana letter small wa
0030EF Katakana letter wa
0030F0 Katakana letter wi
0030F1 Katakana letter we
0030F2 Katakana letter wo
0030F3 Katakana letter n
0030F4 Katakana letter vu
0030F5 Katakana letter small ka
0030F6 Katakana letter small ke
0030F7 Katakana letter va
0030F8 Katakana letter vi
0030F9 Katakana letter ve
0030FA Katakana letter vo
0030FB Katakana middle dot
0030FC Katakana-hiragana prolonged sound mark
0030FD Katakana iteration mark
0030FE Katakana voiced iteration mark
0030FF Katakana digraph koto
003105 Bopomofo letter b
003106 Bopomofo letter p
003107 Bopomofo letter m
003108 Bopomofo letter f
003109 Bopomofo letter d
00310A Bopomofo letter t
00310B Bopomofo letter n
00310C Bopomofo letter l
00310D Bopomofo letter g
00310E Bopomofo letter k
00310F Bopomofo letter h
003110 Bopomofo letter j
003111 Bopomofo letter q
003112 Bopomofo letter x
003113 Bopomofo letter zh
003114 Bopomofo letter ch
003115 Bopomofo letter sh
003116 Bopomofo letter r
003117 Bopomofo letter z
003118 Bopomofo letter c
003119 Bopomofo letter s
00311A Bopomofo letter a
00311B Bopomofo letter o
00311C Bopomofo letter e
00311D Bopomofo letter eh
00311E Bopomofo letter ai
00311F Bopomofo letter ei
003120 Bopomofo letter au
003121 Bopomofo letter ou
003122 Bopomofo letter an
003123 Bopomofo letter en
003124 Bopomofo letter ang
003125 Bopomofo letter eng
003126 Bopomofo letter er
003127 Bopomofo letter i
003128 Bopomofo letter u
003129 Bopomofo letter iu
00312A Bopomofo letter v
00312B Bopomofo letter ng
00312C Bopomofo letter gn
00312D Bopomofo letter ih
00312E Bopomofo letter o with dot above
00312F Bopomofo letter nn
003131 Hangul letter kiyeok
003132 Hangul letter ssangkiyeok
003133 Hangul letter kiyeok-sios
003134 Hangul letter nieun
003135 Hangul letter nieun-cieuc
003136 Hangul letter nieun-hieuh
003137 Hangul letter tikeut
003138 Hangul letter ssangtikeut
003139 Hangul letter rieul
00313A Hangul letter rieul-kiyeok
00313B Hangul letter rieul-mieum
00313C Hangul letter rieul-pieup
00313D Hangul letter rieul-sios
00313E Hangul letter rieul-thieuth
00313F Hangul letter rieul-phieuph
003140 Hangul letter rieul-hieuh
003141 Hangul letter mieum
003142 Hangul letter pieup
003143 Hangul letter ssangpieup
003144 Hangul letter pieup-sios
003145 Hangul letter sios
003146 Hangul letter ssangsios
003147 Hangul letter ieung
003148 Hangul letter cieuc
003149 Hangul letter ssangcieuc
00314A Hangul letter chieuch
00314B Hangul letter khieukh
00314C Hangul letter thieuth
00314D Hangul letter phieuph
00314E Hangul letter hieuh
00314F Hangul letter a
003150 Hangul letter ae
003151 Hangul letter ya
003152 Hangul letter yae
003153 Hangul letter eo
003154 Hangul letter e
003155 Hangul letter yeo
003156 Hangul letter ye
003157 Hangul letter o
003158 Hangul letter wa
003159 Hangul letter wae
00315A Hangul letter oe
00315B Hangul letter yo
00315C Hangul letter u
00315D Hangul letter weo
00315E Hangul letter we
00315F Hangul letter wi
003160 Hangul letter yu
003161 Hangul letter eu
003162 Hangul letter yi
003163 Hangul letter i
003164 Hangul filler
003165 Hangul letter ssangnieun
003166 Hangul letter nieun-tikeut
003167 Hangul letter nieun-sios
003168 Hangul letter nieun-pansios
003169 Hangul letter rieul-kiyeok-sios
00316A Hangul letter rieul-tikeut
00316B Hangul letter rieul-pieup-sios
00316C Hangul letter rieul-pansios
00316D Hangul letter rieul-yeorinhieuh
00316E Hangul letter mieum-pieup
00316F Hangul letter mieum-sios
003170 Hangul letter mieum-pansios
003171 Hangul letter kapyeounmieum
003172 Hangul letter pieup-kiyeok
";

pub const NAMES_28: &'static str = "003173 Hangul letter pieup-tikeut
003174 Hangul letter pieup-sios-kiyeok
003175 Hangul letter pieup-sios-tikeut
003176 Hangul letter pieup-cieuc
003177 Hangul letter pieup-thieuth
003178 Hangul letter kapyeounpieup
003179 Hangul letter kapyeounssangpieup
00317A Hangul letter sios-kiyeok
00317B Hangul letter sios-nieun
00317C Hangul letter sios-tikeut
00317D Hangul letter sios-pieup
00317E Hangul letter sios-cieuc
00317F Hangul letter pansios
003180 Hangul letter ssangieung
003181 Hangul letter yesieung
003182 Hangul letter yesieung-sios
003183 Hangul letter yesieung-pansios
003184 Hangul letter kapyeounphieuph
003185 Hangul letter ssanghieuh
003186 Hangul letter yeorinhieuh
003187 Hangul letter yo-ya
003188 Hangul letter yo-yae
003189 Hangul letter yo-i
00318A Hangul letter yu-yeo
00318B Hangul letter yu-ye
00318C Hangul letter yu-i
00318D Hangul letter araea
00318E Hangul letter araeae
003190 Ideographic annotation linking mark
003191 Ideographic annotation reverse mark
003192 Ideographic annotation one mark
003193 Ideographic annotation two mark
003194 Ideographic annotation three mark
003195 Ideographic annotation four mark
003196 Ideographic annotation top mark
003197 Ideographic annotation middle mark
003198 Ideographic annotation bottom mark
003199 Ideographic annotation first mark
00319A Ideographic annotation second mark
00319B Ideographic annotation third mark
00319C Ideographic annotation fourth mark
00319D Ideographic annotation heaven mark
00319E Ideographic annotation earth mark
00319F Ideographic annotation man mark
0031A0 Bopomofo letter bu
0031A1 Bopomofo letter zi
0031A2 Bopomofo letter ji
0031A3 Bopomofo letter gu
0031A4 Bopomofo letter ee
0031A5 Bopomofo letter enn
0031A6 Bopomofo letter oo
0031A7 Bopomofo letter onn
0031A8 Bopomofo letter ir
0031A9 Bopomofo letter ann
0031AA Bopomofo letter inn
0031AB Bopomofo letter unn
0031AC Bopomofo letter im
0031AD Bopomofo letter ngg
0031AE Bopomofo letter ainn
0031AF Bopomofo letter aunn
0031B0 Bopomofo letter am
0031B1 Bopomofo letter om
0031B2 Bopomofo letter ong
0031B3 Bopomofo letter innn
0031B4 Bopomofo final letter p
0031B5 Bopomofo final letter t
0031B6 Bopomofo final letter k
0031B7 Bopomofo final letter h
0031B8 Bopomofo letter gh
0031B9 Bopomofo letter lh
0031BA Bopomofo letter zy
0031BB Bopomofo final letter g
0031BC Bopomofo letter gw
0031BD Bopomofo letter kw
0031BE Bopomofo letter oe
0031BF Bopomofo letter ah
0031C0 Cjk stroke t
0031C1 Cjk stroke wg
0031C2 Cjk stroke xg
0031C3 Cjk stroke bxg
0031C4 Cjk stroke sw
0031C5 Cjk stroke hzz
0031C6 Cjk stroke hzg
0031C7 Cjk stroke hp
0031C8 Cjk stroke hzwg
0031C9 Cjk stroke szwg
0031CA Cjk stroke hzt
0031CB Cjk stroke hzzp
0031CC Cjk stroke hpwg
0031CD Cjk stroke hzw
0031CE Cjk stroke hzzz
0031CF Cjk stroke n
0031D0 Cjk stroke h
0031D1 Cjk stroke s
0031D2 Cjk stroke p
0031D3 Cjk stroke sp
0031D4 Cjk stroke d
0031D5 Cjk stroke hz
0031D6 Cjk stroke hg
0031D7 Cjk stroke sz
0031D8 Cjk stroke swz
0031D9 Cjk stroke st
0031DA Cjk stroke sg
0031DB Cjk stroke pd
0031DC Cjk stroke pz
0031DD Cjk stroke tn
0031DE Cjk stroke szz
0031DF Cjk stroke swg
0031E0 Cjk stroke hxwg
0031E1 Cjk stroke hzzzg
0031E2 Cjk stroke pg
0031E3 Cjk stroke q
0031F0 Katakana letter small ku
0031F1 Katakana letter small si
0031F2 Katakana letter small su
0031F3 Katakana letter small to
0031F4 Katakana letter small nu
0031F5 Katakana letter small ha
0031F6 Katakana letter small hi
0031F7 Katakana letter small hu
0031F8 Katakana letter small he
0031F9 Katakana letter small ho
0031FA Katakana letter small mu
0031FB Katakana letter small ra
0031FC Katakana letter small ri
0031FD Katakana letter small ru
0031FE Katakana letter small re
0031FF Katakana letter small ro
003200 Parenthesized hangul kiyeok
003201 Parenthesized hangul nieun
003202 Parenthesized hangul tikeut
003203 Parenthesized hangul rieul
003204 Parenthesized hangul mieum
003205 Parenthesized hangul pieup
003206 Parenthesized hangul sios
003207 Parenthesized hangul ieung
003208 Parenthesized hangul cieuc
003209 Parenthesized hangul chieuch
00320A Parenthesized hangul khieukh
00320B Parenthesized hangul thieuth
00320C Parenthesized hangul phieuph
00320D Parenthesized hangul hieuh
00320E Parenthesized hangul kiyeok a
00320F Parenthesized hangul nieun a
003210 Parenthesized hangul tikeut a
003211 Parenthesized hangul rieul a
003212 Parenthesized hangul mieum a
003213 Parenthesized hangul pieup a
003214 Parenthesized hangul sios a
003215 Parenthesized hangul ieung a
003216 Parenthesized hangul cieuc a
003217 Parenthesized hangul chieuch a
003218 Parenthesized hangul khieukh a
003219 Parenthesized hangul thieuth a
00321A Parenthesized hangul phieuph a
00321B Parenthesized hangul hieuh a
00321C Parenthesized hangul cieuc u
00321D Parenthesized korean character ojeon
00321E Parenthesized korean character o hu
003220 Parenthesized ideograph one
003221 Parenthesized ideograph two
003222 Parenthesized ideograph three
003223 Parenthesized ideograph four
003224 Parenthesized ideograph five
003225 Parenthesized ideograph six
003226 Parenthesized ideograph seven
003227 Parenthesized ideograph eight
003228 Parenthesized ideograph nine
003229 Parenthesized ideograph ten
00322A Parenthesized ideograph moon
00322B Parenthesized ideograph fire
00322C Parenthesized ideograph water
00322D Parenthesized ideograph wood
00322E Parenthesized ideograph metal
00322F Parenthesized ideograph earth
003230 Parenthesized ideograph sun
003231 Parenthesized ideograph stock
003232 Parenthesized ideograph have
003233 Parenthesized ideograph society
003234 Parenthesized ideograph name
003235 Parenthesized ideograph special
003236 Parenthesized ideograph financial
003237 Parenthesized ideograph congratulation
003238 Parenthesized ideograph labor
003239 Parenthesized ideograph represent
00323A Parenthesized ideograph call
00323B Parenthesized ideograph study
00323C Parenthesized ideograph supervise
00323D Parenthesized ideograph enterprise
00323E Parenthesized ideograph resource
00323F Parenthesized ideograph alliance
003240 Parenthesized ideograph festival
003241 Parenthesized ideograph rest
003242 Parenthesized ideograph self
003243 Parenthesized ideograph reach
003244 Circled ideograph question
003245 Circled ideograph kindergarten
003246 Circled ideograph school
003247 Circled ideograph koto
003248 Circled number ten on black square
003249 Circled number twenty on black square
00324A Circled number thirty on black square
00324B Circled number forty on black square
00324C Circled number fifty on black square
00324D Circled number sixty on black square
00324E Circled number seventy on black square
00324F Circled number eighty on black square
003250 Partnership sign
003251 Circled number twenty one
003252 Circled number twenty two
003253 Circled number twenty three
003254 Circled number twenty four
003255 Circled number twenty five
003256 Circled number twenty six
003257 Circled number twenty seven
003258 Circled number twenty eight
003259 Circled number twenty nine
00325A Circled number thirty
00325B Circled number thirty one
00325C Circled number thirty two
00325D Circled number thirty three
00325E Circled number thirty four
00325F Circled number thirty five
003260 Circled hangul kiyeok
003261 Circled hangul nieun
003262 Circled hangul tikeut
003263 Circled hangul rieul
003264 Circled hangul mieum
003265 Circled hangul pieup
003266 Circled hangul sios
003267 Circled hangul ieung
003268 Circled hangul cieuc
003269 Circled hangul chieuch
00326A Circled hangul khieukh
00326B Circled hangul thieuth
00326C Circled hangul phieuph
00326D Circled hangul hieuh
00326E Circled hangul kiyeok a
00326F Circled hangul nieun a
003270 Circled hangul tikeut a
003271 Circled hangul rieul a
003272 Circled hangul mieum a
003273 Circled hangul pieup a
003274 Circled hangul sios a
003275 Circled hangul ieung a
003276 Circled hangul cieuc a
003277 Circled hangul chieuch a
003278 Circled hangul khieukh a
003279 Circled hangul thieuth a
00327A Circled hangul phieuph a
00327B Circled hangul hieuh a
00327C Circled korean character chamko
00327D Circled korean character jueui
00327E Circled hangul ieung u
00327F Korean standard symbol
003280 Circled ideograph one
003281 Circled ideograph two
003282 Circled ideograph three
003283 Circled ideograph four
003284 Circled ideograph five
003285 Circled ideograph six
003286 Circled ideograph seven
003287 Circled ideograph eight
003288 Circled ideograph nine
003289 Circled ideograph ten
00328A Circled ideograph moon
00328B Circled ideograph fire
00328C Circled ideograph water
00328D Circled ideograph wood
00328E Circled ideograph metal
00328F Circled ideograph earth
003290 Circled ideograph sun
003291 Circled ideograph stock
003292 Circled ideograph have
003293 Circled ideograph society
003294 Circled ideograph name
003295 Circled ideograph special
003296 Circled ideograph financial
003297 Circled ideograph congratulation
003298 Circled ideograph labor
003299 Circled ideograph secret
00329A Circled ideograph male
00329B Circled ideograph female
00329C Circled ideograph suitable
00329D Circled ideograph excellent
00329E Circled ideograph print
00329F Circled ideograph attention
0032A0 Circled ideograph item
0032A1 Circled ideograph rest
0032A2 Circled ideograph copy
0032A3 Circled ideograph correct
0032A4 Circled ideograph high
0032A5 Circled ideograph centre
0032A6 Circled ideograph low
0032A7 Circled ideograph left
0032A8 Circled ideograph right
0032A9 Circled ideograph medicine
0032AA Circled ideograph religion
0032AB Circled ideograph study
0032AC Circled ideograph supervise
0032AD Circled ideograph enterprise
0032AE Circled ideograph resource
0032AF Circled ideograph alliance
0032B0 Circled ideograph night
0032B1 Circled number thirty six
0032B2 Circled number thirty seven
0032B3 Circled number thirty eight
0032B4 Circled number thirty nine
0032B5 Circled number forty
0032B6 Circled number forty one
0032B7 Circled number forty two
0032B8 Circled number forty three
0032B9 Circled number forty four
0032BA Circled number forty five
0032BB Circled number forty six
0032BC Circled number forty seven
0032BD Circled number forty eight
0032BE Circled number forty nine
0032BF Circled number fifty
0032C0 Ideographic telegraph symbol for january
0032C1 Ideographic telegraph symbol for february
0032C2 Ideographic telegraph symbol for march
0032C3 Ideographic telegraph symbol for april
0032C4 Ideographic telegraph symbol for may
0032C5 Ideographic telegraph symbol for june
0032C6 Ideographic telegraph symbol for july
0032C7 Ideographic telegraph symbol for august
0032C8 Ideographic telegraph symbol for september
0032C9 Ideographic telegraph symbol for october
0032CA Ideographic telegraph symbol for november
0032CB Ideographic telegraph symbol for december
0032CC Square hg
0032CD Square erg
0032CE Square ev
0032CF Limited liability sign
0032D0 Circled katakana a
0032D1 Circled katakana i
0032D2 Circled katakana u
0032D3 Circled katakana e
0032D4 Circled katakana o
0032D5 Circled katakana ka
0032D6 Circled katakana ki
0032D7 Circled katakana ku
0032D8 Circled katakana ke
0032D9 Circled katakana ko
0032DA Circled katakana sa
0032DB Circled katakana si
0032DC Circled katakana su
0032DD Circled katakana se
0032DE Circled katakana so
0032DF Circled katakana ta
0032E0 Circled katakana ti
0032E1 Circled katakana tu
0032E2 Circled katakana te
0032E3 Circled katakana to
0032E4 Circled katakana na
0032E5 Circled katakana ni
0032E6 Circled katakana nu
0032E7 Circled katakana ne
0032E8 Circled katakana no
0032E9 Circled katakana ha
0032EA Circled katakana hi
0032EB Circled katakana hu
0032EC Circled katakana he
0032ED Circled katakana ho
0032EE Circled katakana ma
0032EF Circled katakana mi
0032F0 Circled katakana mu
0032F1 Circled katakana me
0032F2 Circled katakana mo
0032F3 Circled katakana ya
0032F4 Circled katakana yu
0032F5 Circled katakana yo
0032F6 Circled katakana ra
0032F7 Circled katakana ri
0032F8 Circled katakana ru
0032F9 Circled katakana re
0032FA Circled katakana ro
0032FB Circled katakana wa
0032FC Circled katakana wi
0032FD Circled katakana we
0032FE Circled katakana wo
0032FF Square era name reiwa
003300 Square apaato
003301 Square aruhua
003302 Square anpea
003303 Square aaru
003304 Square iningu
003305 Square inti
003306 Square uon
003307 Square esukuudo
003308 Square eekaa
003309 Square onsu
00330A Square oomu
00330B Square kairi
00330C Square karatto
00330D Square karorii
00330E Square garon
00330F Square ganma
003310 Square giga
003311 Square ginii
003312 Square kyurii
003313 Square girudaa
003314 Square kiro
003315 Square kiroguramu
003316 Square kiromeetoru
003317 Square kirowatto
003318 Square guramu
003319 Square guramuton
00331A Square kuruzeiro
00331B Square kuroone
00331C Square keesu
00331D Square koruna
00331E Square koopo
00331F Square saikuru
003320 Square santiimu
003321 Square siringu
003322 Square senti
003323 Square sento
003324 Square daasu
003325 Square desi
003326 Square doru
003327 Square ton
003328 Square nano
003329 Square notto
00332A Square haitu
00332B Square paasento
00332C Square paatu
00332D Square baareru
00332E Square piasutoru
00332F Square pikuru
003330 Square piko
003331 Square biru
003332 Square huaraddo
003333 Square huiito
003334 Square bussyeru
003335 Square huran
003336 Square hekutaaru
003337 Square peso
003338 Square penihi
003339 Square herutu
00333A Square pensu
00333B Square peezi
00333C Square beeta
00333D Square pointo
00333E Square boruto
00333F Square hon
003340 Square pondo
003341 Square hooru
003342 Square hoon
003343 Square maikuro
003344 Square mairu
003345 Square mahha
003346 Square maruku
003347 Square mansyon
003348 Square mikuron
003349 Square miri
00334A Square miribaaru
00334B Square mega
00334C Square megaton
00334D Square meetoru
00334E Square yaado
00334F Square yaaru
003350 Square yuan
003351 Square rittoru
003352 Square rira
003353 Square rupii
003354 Square ruuburu
003355 Square remu
003356 Square rentogen
003357 Square watto
";

pub const NAMES_29: &'static str = "003358 Ideographic telegraph symbol for hour zero
003359 Ideographic telegraph symbol for hour one
00335A Ideographic telegraph symbol for hour two
00335B Ideographic telegraph symbol for hour three
00335C Ideographic telegraph symbol for hour four
00335D Ideographic telegraph symbol for hour five
00335E Ideographic telegraph symbol for hour six
00335F Ideographic telegraph symbol for hour seven
003360 Ideographic telegraph symbol for hour eight
003361 Ideographic telegraph symbol for hour nine
003362 Ideographic telegraph symbol for hour ten
003363 Ideographic telegraph symbol for hour eleven
003364 Ideographic telegraph symbol for hour twelve
003365 Ideographic telegraph symbol for hour thirteen
003366 Ideographic telegraph symbol for hour fourteen
003367 Ideographic telegraph symbol for hour fifteen
003368 Ideographic telegraph symbol for hour sixteen
003369 Ideographic telegraph symbol for hour seventeen
00336A Ideographic telegraph symbol for hour eighteen
00336B Ideographic telegraph symbol for hour nineteen
00336C Ideographic telegraph symbol for hour twenty
00336D Ideographic telegraph symbol for hour twenty-one
00336E Ideographic telegraph symbol for hour twenty-two
00336F Ideographic telegraph symbol for hour twenty-three
003370 Ideographic telegraph symbol for hour twenty-four
003371 Square hpa
003372 Square da
003373 Square au
003374 Square bar
003375 Square ov
003376 Square pc
003377 Square dm
003378 Square dm squared
003379 Square dm cubed
00337A Square iu
00337B Square era name heisei
00337C Square era name syouwa
00337D Square era name taisyou
00337E Square era name meizi
00337F Square corporation
003380 Square pa amps
003381 Square na
003382 Square mu a
003383 Square ma
003384 Square ka
003385 Square kb
003386 Square mb
003387 Square gb
003388 Square cal
003389 Square kcal
00338A Square pf
00338B Square nf
00338C Square mu f
00338D Square mu g
00338E Square mg
00338F Square kg
003390 Square hz
003391 Square khz
003392 Square mhz
003393 Square ghz
003394 Square thz
003395 Square mu l
003396 Square ml
003397 Square dl
003398 Square kl
003399 Square fm
00339A Square nm
00339B Square mu m
00339C Square mm
00339D Square cm
00339E Square km
00339F Square mm squared
0033A0 Square cm squared
0033A1 Square m squared
0033A2 Square km squared
0033A3 Square mm cubed
0033A4 Square cm cubed
0033A5 Square m cubed
0033A6 Square km cubed
0033A7 Square m over s
0033A8 Square m over s squared
0033A9 Square pa
0033AA Square kpa
0033AB Square mpa
0033AC Square gpa
0033AD Square rad
0033AE Square rad over s
0033AF Square rad over s squared
0033B0 Square ps
0033B1 Square ns
0033B2 Square mu s
0033B3 Square ms
0033B4 Square pv
0033B5 Square nv
0033B6 Square mu v
0033B7 Square mv
0033B8 Square kv
0033B9 Square mv mega
0033BA Square pw
0033BB Square nw
0033BC Square mu w
0033BD Square mw
0033BE Square kw
0033BF Square mw mega
0033C0 Square k ohm
0033C1 Square m ohm
0033C2 Square am
0033C3 Square bq
0033C4 Square cc
0033C5 Square cd
0033C6 Square c over kg
0033C7 Square co
0033C8 Square db
0033C9 Square gy
0033CA Square ha
0033CB Square hp
0033CC Square in
0033CD Square kk
0033CE Square km capital
0033CF Square kt
0033D0 Square lm
0033D1 Square ln
0033D2 Square log
0033D3 Square lx
0033D4 Square mb small
0033D5 Square mil
0033D6 Square mol
0033D7 Square ph
0033D8 Square pm
0033D9 Square ppm
0033DA Square pr
0033DB Square sr
0033DC Square sv
0033DD Square wb
0033DE Square v over m
0033DF Square a over m
0033E0 Ideographic telegraph symbol for day one
0033E1 Ideographic telegraph symbol for day two
0033E2 Ideographic telegraph symbol for day three
0033E3 Ideographic telegraph symbol for day four
0033E4 Ideographic telegraph symbol for day five
0033E5 Ideographic telegraph symbol for day six
0033E6 Ideographic telegraph symbol for day seven
0033E7 Ideographic telegraph symbol for day eight
0033E8 Ideographic telegraph symbol for day nine
0033E9 Ideographic telegraph symbol for day ten
0033EA Ideographic telegraph symbol for day eleven
0033EB Ideographic telegraph symbol for day twelve
0033EC Ideographic telegraph symbol for day thirteen
0033ED Ideographic telegraph symbol for day fourteen
0033EE Ideographic telegraph symbol for day fifteen
0033EF Ideographic telegraph symbol for day sixteen
0033F0 Ideographic telegraph symbol for day seventeen
0033F1 Ideographic telegraph symbol for day eighteen
0033F2 Ideographic telegraph symbol for day nineteen
0033F3 Ideographic telegraph symbol for day twenty
0033F4 Ideographic telegraph symbol for day twenty-one
0033F5 Ideographic telegraph symbol for day twenty-two
0033F6 Ideographic telegraph symbol for day twenty-three
0033F7 Ideographic telegraph symbol for day twenty-four
0033F8 Ideographic telegraph symbol for day twenty-five
0033F9 Ideographic telegraph symbol for day twenty-six
0033FA Ideographic telegraph symbol for day twenty-seven
0033FB Ideographic telegraph symbol for day twenty-eight
0033FC Ideographic telegraph symbol for day twenty-nine
0033FD Ideographic telegraph symbol for day thirty
0033FE Ideographic telegraph symbol for day thirty-one
0033FF Square gal
004DC0 Hexagram for the creative heaven
004DC1 Hexagram for the receptive earth
004DC2 Hexagram for difficulty at the beginning
004DC3 Hexagram for youthful folly
004DC4 Hexagram for waiting
004DC5 Hexagram for conflict
004DC6 Hexagram for the army
004DC7 Hexagram for holding together
004DC8 Hexagram for small taming
004DC9 Hexagram for treading
004DCA Hexagram for peace
004DCB Hexagram for standstill
004DCC Hexagram for fellowship
004DCD Hexagram for great possession
004DCE Hexagram for modesty
004DCF Hexagram for enthusiasm
004DD0 Hexagram for following
004DD1 Hexagram for work on the decayed
004DD2 Hexagram for approach
004DD3 Hexagram for contemplation
004DD4 Hexagram for biting through
004DD5 Hexagram for grace
004DD6 Hexagram for splitting apart
004DD7 Hexagram for return
004DD8 Hexagram for innocence
004DD9 Hexagram for great taming
004DDA Hexagram for mouth corners
004DDB Hexagram for great preponderance
004DDC Hexagram for the abysmal water
004DDD Hexagram for the clinging fire
004DDE Hexagram for influence
004DDF Hexagram for duration
004DE0 Hexagram for retreat
004DE1 Hexagram for great power
004DE2 Hexagram for progress
004DE3 Hexagram for darkening of the light
004DE4 Hexagram for the family
004DE5 Hexagram for opposition
004DE6 Hexagram for obstruction
004DE7 Hexagram for deliverance
004DE8 Hexagram for decrease
004DE9 Hexagram for increase
004DEA Hexagram for breakthrough
004DEB Hexagram for coming to meet
004DEC Hexagram for gathering together
004DED Hexagram for pushing upward
004DEE Hexagram for oppression
004DEF Hexagram for the well
004DF0 Hexagram for revolution
004DF1 Hexagram for the cauldron
004DF2 Hexagram for the arousing thunder
004DF3 Hexagram for the keeping still mountain
004DF4 Hexagram for development
004DF5 Hexagram for the marrying maiden
004DF6 Hexagram for abundance
004DF7 Hexagram for the wanderer
004DF8 Hexagram for the gentle wind
004DF9 Hexagram for the joyous lake
004DFA Hexagram for dispersion
004DFB Hexagram for limitation
004DFC Hexagram for inner truth
004DFD Hexagram for small preponderance
004DFE Hexagram for after completion
004DFF Hexagram for before completion
00A000 Yi syllable it
00A001 Yi syllable ix
00A002 Yi syllable i
00A003 Yi syllable ip
00A004 Yi syllable iet
00A005 Yi syllable iex
00A006 Yi syllable ie
00A007 Yi syllable iep
00A008 Yi syllable at
00A009 Yi syllable ax
00A00A Yi syllable a
00A00B Yi syllable ap
00A00C Yi syllable uox
00A00D Yi syllable uo
00A00E Yi syllable uop
00A00F Yi syllable ot
00A010 Yi syllable ox
00A011 Yi syllable o
00A012 Yi syllable op
00A013 Yi syllable ex
00A014 Yi syllable e
00A015 Yi syllable wu
00A016 Yi syllable bit
00A017 Yi syllable bix
00A018 Yi syllable bi
00A019 Yi syllable bip
00A01A Yi syllable biet
00A01B Yi syllable biex
00A01C Yi syllable bie
00A01D Yi syllable biep
00A01E Yi syllable bat
00A01F Yi syllable bax
00A020 Yi syllable ba
00A021 Yi syllable bap
00A022 Yi syllable buox
00A023 Yi syllable buo
00A024 Yi syllable buop
00A025 Yi syllable bot
00A026 Yi syllable box
00A027 Yi syllable bo
00A028 Yi syllable bop
00A029 Yi syllable bex
00A02A Yi syllable be
00A02B Yi syllable bep
00A02C Yi syllable but
00A02D Yi syllable bux
00A02E Yi syllable bu
00A02F Yi syllable bup
00A030 Yi syllable burx
00A031 Yi syllable bur
00A032 Yi syllable byt
00A033 Yi syllable byx
00A034 Yi syllable by
00A035 Yi syllable byp
00A036 Yi syllable byrx
00A037 Yi syllable byr
00A038 Yi syllable pit
00A039 Yi syllable pix
00A03A Yi syllable pi
00A03B Yi syllable pip
00A03C Yi syllable piex
00A03D Yi syllable pie
00A03E Yi syllable piep
00A03F Yi syllable pat
00A040 Yi syllable pax
00A041 Yi syllable pa
00A042 Yi syllable pap
00A043 Yi syllable puox
00A044 Yi syllable puo
00A045 Yi syllable puop
00A046 Yi syllable pot
00A047 Yi syllable pox
00A048 Yi syllable po
00A049 Yi syllable pop
00A04A Yi syllable put
00A04B Yi syllable pux
00A04C Yi syllable pu
00A04D Yi syllable pup
00A04E Yi syllable purx
00A04F Yi syllable pur
00A050 Yi syllable pyt
00A051 Yi syllable pyx
00A052 Yi syllable py
00A053 Yi syllable pyp
00A054 Yi syllable pyrx
00A055 Yi syllable pyr
00A056 Yi syllable bbit
00A057 Yi syllable bbix
00A058 Yi syllable bbi
00A059 Yi syllable bbip
00A05A Yi syllable bbiet
00A05B Yi syllable bbiex
00A05C Yi syllable bbie
00A05D Yi syllable bbiep
00A05E Yi syllable bbat
00A05F Yi syllable bbax
00A060 Yi syllable bba
00A061 Yi syllable bbap
00A062 Yi syllable bbuox
00A063 Yi syllable bbuo
00A064 Yi syllable bbuop
00A065 Yi syllable bbot
00A066 Yi syllable bbox
00A067 Yi syllable bbo
00A068 Yi syllable bbop
00A069 Yi syllable bbex
00A06A Yi syllable bbe
00A06B Yi syllable bbep
00A06C Yi syllable bbut
00A06D Yi syllable bbux
00A06E Yi syllable bbu
00A06F Yi syllable bbup
00A070 Yi syllable bburx
00A071 Yi syllable bbur
00A072 Yi syllable bbyt
00A073 Yi syllable bbyx
00A074 Yi syllable bby
00A075 Yi syllable bbyp
00A076 Yi syllable nbit
00A077 Yi syllable nbix
00A078 Yi syllable nbi
00A079 Yi syllable nbip
00A07A Yi syllable nbiex
00A07B Yi syllable nbie
00A07C Yi syllable nbiep
00A07D Yi syllable nbat
00A07E Yi syllable nbax
00A07F Yi syllable nba
00A080 Yi syllable nbap
00A081 Yi syllable nbot
00A082 Yi syllable nbox
00A083 Yi syllable nbo
00A084 Yi syllable nbop
00A085 Yi syllable nbut
00A086 Yi syllable nbux
00A087 Yi syllable nbu
00A088 Yi syllable nbup
00A089 Yi syllable nburx
00A08A Yi syllable nbur
00A08B Yi syllable nbyt
00A08C Yi syllable nbyx
00A08D Yi syllable nby
00A08E Yi syllable nbyp
00A08F Yi syllable nbyrx
00A090 Yi syllable nbyr
00A091 Yi syllable hmit
00A092 Yi syllable hmix
00A093 Yi syllable hmi
00A094 Yi syllable hmip
00A095 Yi syllable hmiex
00A096 Yi syllable hmie
00A097 Yi syllable hmiep
00A098 Yi syllable hmat
00A099 Yi syllable hmax
00A09A Yi syllable hma
00A09B Yi syllable hmap
00A09C Yi syllable hmuox
00A09D Yi syllable hmuo
00A09E Yi syllable hmuop
00A09F Yi syllable hmot
00A0A0 Yi syllable hmox
00A0A1 Yi syllable hmo
00A0A2 Yi syllable hmop
00A0A3 Yi syllable hmut
00A0A4 Yi syllable hmux
00A0A5 Yi syllable hmu
00A0A6 Yi syllable hmup
00A0A7 Yi syllable hmurx
00A0A8 Yi syllable hmur
00A0A9 Yi syllable hmyx
00A0AA Yi syllable hmy
00A0AB Yi syllable hmyp
00A0AC Yi syllable hmyrx
00A0AD Yi syllable hmyr
00A0AE Yi syllable mit
00A0AF Yi syllable mix
00A0B0 Yi syllable mi
00A0B1 Yi syllable mip
00A0B2 Yi syllable miex
00A0B3 Yi syllable mie
00A0B4 Yi syllable miep
00A0B5 Yi syllable mat
00A0B6 Yi syllable max
00A0B7 Yi syllable ma
00A0B8 Yi syllable map
00A0B9 Yi syllable muot
00A0BA Yi syllable muox
00A0BB Yi syllable muo
00A0BC Yi syllable muop
00A0BD Yi syllable mot
00A0BE Yi syllable mox
00A0BF Yi syllable mo
00A0C0 Yi syllable mop
00A0C1 Yi syllable mex
00A0C2 Yi syllable me
00A0C3 Yi syllable mut
00A0C4 Yi syllable mux
00A0C5 Yi syllable mu
00A0C6 Yi syllable mup
00A0C7 Yi syllable murx
00A0C8 Yi syllable mur
00A0C9 Yi syllable myt
00A0CA Yi syllable myx
00A0CB Yi syllable my
00A0CC Yi syllable myp
00A0CD Yi syllable fit
00A0CE Yi syllable fix
00A0CF Yi syllable fi
00A0D0 Yi syllable fip
00A0D1 Yi syllable fat
00A0D2 Yi syllable fax
00A0D3 Yi syllable fa
00A0D4 Yi syllable fap
00A0D5 Yi syllable fox
00A0D6 Yi syllable fo
00A0D7 Yi syllable fop
00A0D8 Yi syllable fut
00A0D9 Yi syllable fux
00A0DA Yi syllable fu
00A0DB Yi syllable fup
00A0DC Yi syllable furx
00A0DD Yi syllable fur
00A0DE Yi syllable fyt
00A0DF Yi syllable fyx
00A0E0 Yi syllable fy
00A0E1 Yi syllable fyp
00A0E2 Yi syllable vit
00A0E3 Yi syllable vix
00A0E4 Yi syllable vi
00A0E5 Yi syllable vip
00A0E6 Yi syllable viet
00A0E7 Yi syllable viex
00A0E8 Yi syllable vie
00A0E9 Yi syllable viep
00A0EA Yi syllable vat
00A0EB Yi syllable vax
00A0EC Yi syllable va
00A0ED Yi syllable vap
00A0EE Yi syllable vot
00A0EF Yi syllable vox
00A0F0 Yi syllable vo
00A0F1 Yi syllable vop
00A0F2 Yi syllable vex
00A0F3 Yi syllable vep
00A0F4 Yi syllable vut
00A0F5 Yi syllable vux
00A0F6 Yi syllable vu
00A0F7 Yi syllable vup
00A0F8 Yi syllable vurx
00A0F9 Yi syllable vur
00A0FA Yi syllable vyt
00A0FB Yi syllable vyx
00A0FC Yi syllable vy
00A0FD Yi syllable vyp
00A0FE Yi syllable vyrx
00A0FF Yi syllable vyr
00A100 Yi syllable dit
00A101 Yi syllable dix
00A102 Yi syllable di
00A103 Yi syllable dip
00A104 Yi syllable diex
00A105 Yi syllable die
00A106 Yi syllable diep
00A107 Yi syllable dat
00A108 Yi syllable dax
00A109 Yi syllable da
00A10A Yi syllable dap
00A10B Yi syllable duox
00A10C Yi syllable duo
00A10D Yi syllable dot
00A10E Yi syllable dox
00A10F Yi syllable do
00A110 Yi syllable dop
00A111 Yi syllable dex
00A112 Yi syllable de
00A113 Yi syllable dep
00A114 Yi syllable dut
00A115 Yi syllable dux
00A116 Yi syllable du
00A117 Yi syllable dup
00A118 Yi syllable durx
00A119 Yi syllable dur
00A11A Yi syllable tit
00A11B Yi syllable tix
00A11C Yi syllable ti
00A11D Yi syllable tip
00A11E Yi syllable tiex
00A11F Yi syllable tie
00A120 Yi syllable tiep
00A121 Yi syllable tat
";

pub const NAMES_30: &'static str = "00A122 Yi syllable tax
00A123 Yi syllable ta
00A124 Yi syllable tap
00A125 Yi syllable tuot
00A126 Yi syllable tuox
00A127 Yi syllable tuo
00A128 Yi syllable tuop
00A129 Yi syllable tot
00A12A Yi syllable tox
00A12B Yi syllable to
00A12C Yi syllable top
00A12D Yi syllable tex
00A12E Yi syllable te
00A12F Yi syllable tep
00A130 Yi syllable tut
00A131 Yi syllable tux
00A132 Yi syllable tu
00A133 Yi syllable tup
00A134 Yi syllable turx
00A135 Yi syllable tur
00A136 Yi syllable ddit
00A137 Yi syllable ddix
00A138 Yi syllable ddi
00A139 Yi syllable ddip
00A13A Yi syllable ddiex
00A13B Yi syllable ddie
00A13C Yi syllable ddiep
00A13D Yi syllable ddat
00A13E Yi syllable ddax
00A13F Yi syllable dda
00A140 Yi syllable ddap
00A141 Yi syllable dduox
00A142 Yi syllable dduo
00A143 Yi syllable dduop
00A144 Yi syllable ddot
00A145 Yi syllable ddox
00A146 Yi syllable ddo
00A147 Yi syllable ddop
00A148 Yi syllable ddex
00A149 Yi syllable dde
00A14A Yi syllable ddep
00A14B Yi syllable ddut
00A14C Yi syllable ddux
00A14D Yi syllable ddu
00A14E Yi syllable ddup
00A14F Yi syllable ddurx
00A150 Yi syllable ddur
00A151 Yi syllable ndit
00A152 Yi syllable ndix
00A153 Yi syllable ndi
00A154 Yi syllable ndip
00A155 Yi syllable ndiex
00A156 Yi syllable ndie
00A157 Yi syllable ndat
00A158 Yi syllable ndax
00A159 Yi syllable nda
00A15A Yi syllable ndap
00A15B Yi syllable ndot
00A15C Yi syllable ndox
00A15D Yi syllable ndo
00A15E Yi syllable ndop
00A15F Yi syllable ndex
00A160 Yi syllable nde
00A161 Yi syllable ndep
00A162 Yi syllable ndut
00A163 Yi syllable ndux
00A164 Yi syllable ndu
00A165 Yi syllable ndup
00A166 Yi syllable ndurx
00A167 Yi syllable ndur
00A168 Yi syllable hnit
00A169 Yi syllable hnix
00A16A Yi syllable hni
00A16B Yi syllable hnip
00A16C Yi syllable hniet
00A16D Yi syllable hniex
00A16E Yi syllable hnie
00A16F Yi syllable hniep
00A170 Yi syllable hnat
00A171 Yi syllable hnax
00A172 Yi syllable hna
00A173 Yi syllable hnap
00A174 Yi syllable hnuox
00A175 Yi syllable hnuo
00A176 Yi syllable hnot
00A177 Yi syllable hnox
00A178 Yi syllable hnop
00A179 Yi syllable hnex
00A17A Yi syllable hne
00A17B Yi syllable hnep
00A17C Yi syllable hnut
00A17D Yi syllable nit
00A17E Yi syllable nix
00A17F Yi syllable ni
00A180 Yi syllable nip
00A181 Yi syllable niex
00A182 Yi syllable nie
00A183 Yi syllable niep
00A184 Yi syllable nax
00A185 Yi syllable na
00A186 Yi syllable nap
00A187 Yi syllable nuox
00A188 Yi syllable nuo
00A189 Yi syllable nuop
00A18A Yi syllable not
00A18B Yi syllable nox
00A18C Yi syllable no
00A18D Yi syllable nop
00A18E Yi syllable nex
00A18F Yi syllable ne
00A190 Yi syllable nep
00A191 Yi syllable nut
00A192 Yi syllable nux
00A193 Yi syllable nu
00A194 Yi syllable nup
00A195 Yi syllable nurx
00A196 Yi syllable nur
00A197 Yi syllable hlit
00A198 Yi syllable hlix
00A199 Yi syllable hli
00A19A Yi syllable hlip
00A19B Yi syllable hliex
00A19C Yi syllable hlie
00A19D Yi syllable hliep
00A19E Yi syllable hlat
00A19F Yi syllable hlax
00A1A0 Yi syllable hla
00A1A1 Yi syllable hlap
00A1A2 Yi syllable hluox
00A1A3 Yi syllable hluo
00A1A4 Yi syllable hluop
00A1A5 Yi syllable hlox
00A1A6 Yi syllable hlo
00A1A7 Yi syllable hlop
00A1A8 Yi syllable hlex
00A1A9 Yi syllable hle
00A1AA Yi syllable hlep
00A1AB Yi syllable hlut
00A1AC Yi syllable hlux
00A1AD Yi syllable hlu
00A1AE Yi syllable hlup
00A1AF Yi syllable hlurx
00A1B0 Yi syllable hlur
00A1B1 Yi syllable hlyt
00A1B2 Yi syllable hlyx
00A1B3 Yi syllable hly
00A1B4 Yi syllable hlyp
00A1B5 Yi syllable hlyrx
00A1B6 Yi syllable hlyr
00A1B7 Yi syllable lit
00A1B8 Yi syllable lix
00A1B9 Yi syllable li
00A1BA Yi syllable lip
00A1BB Yi syllable liet
00A1BC Yi syllable liex
00A1BD Yi syllable lie
00A1BE Yi syllable liep
00A1BF Yi syllable lat
00A1C0 Yi syllable lax
00A1C1 Yi syllable la
00A1C2 Yi syllable lap
00A1C3 Yi syllable luot
00A1C4 Yi syllable luox
00A1C5 Yi syllable luo
00A1C6 Yi syllable luop
00A1C7 Yi syllable lot
00A1C8 Yi syllable lox
00A1C9 Yi syllable lo
00A1CA Yi syllable lop
00A1CB Yi syllable lex
00A1CC Yi syllable le
00A1CD Yi syllable lep
00A1CE Yi syllable lut
00A1CF Yi syllable lux
00A1D0 Yi syllable lu
00A1D1 Yi syllable lup
00A1D2 Yi syllable lurx
00A1D3 Yi syllable lur
00A1D4 Yi syllable lyt
00A1D5 Yi syllable lyx
00A1D6 Yi syllable ly
00A1D7 Yi syllable lyp
00A1D8 Yi syllable lyrx
00A1D9 Yi syllable lyr
00A1DA Yi syllable git
00A1DB Yi syllable gix
00A1DC Yi syllable gi
00A1DD Yi syllable gip
00A1DE Yi syllable giet
00A1DF Yi syllable giex
00A1E0 Yi syllable gie
00A1E1 Yi syllable giep
00A1E2 Yi syllable gat
00A1E3 Yi syllable gax
00A1E4 Yi syllable ga
00A1E5 Yi syllable gap
00A1E6 Yi syllable guot
00A1E7 Yi syllable guox
00A1E8 Yi syllable guo
00A1E9 Yi syllable guop
00A1EA Yi syllable got
00A1EB Yi syllable gox
00A1EC Yi syllable go
00A1ED Yi syllable gop
00A1EE Yi syllable get
00A1EF Yi syllable gex
00A1F0 Yi syllable ge
00A1F1 Yi syllable gep
00A1F2 Yi syllable gut
00A1F3 Yi syllable gux
00A1F4 Yi syllable gu
00A1F5 Yi syllable gup
00A1F6 Yi syllable gurx
00A1F7 Yi syllable gur
00A1F8 Yi syllable kit
00A1F9 Yi syllable kix
00A1FA Yi syllable ki
00A1FB Yi syllable kip
00A1FC Yi syllable kiex
00A1FD Yi syllable kie
00A1FE Yi syllable kiep
00A1FF Yi syllable kat
00A200 Yi syllable kax
00A201 Yi syllable ka
00A202 Yi syllable kap
00A203 Yi syllable kuox
00A204 Yi syllable kuo
00A205 Yi syllable kuop
00A206 Yi syllable kot
00A207 Yi syllable kox
00A208 Yi syllable ko
00A209 Yi syllable kop
00A20A Yi syllable ket
00A20B Yi syllable kex
00A20C Yi syllable ke
00A20D Yi syllable kep
00A20E Yi syllable kut
00A20F Yi syllable kux
00A210 Yi syllable ku
00A211 Yi syllable kup
00A212 Yi syllable kurx
00A213 Yi syllable kur
00A214 Yi syllable ggit
00A215 Yi syllable ggix
00A216 Yi syllable ggi
00A217 Yi syllable ggiex
00A218 Yi syllable ggie
00A219 Yi syllable ggiep
00A21A Yi syllable ggat
00A21B Yi syllable ggax
00A21C Yi syllable gga
00A21D Yi syllable ggap
00A21E Yi syllable gguot
00A21F Yi syllable gguox
00A220 Yi syllable gguo
00A221 Yi syllable gguop
00A222 Yi syllable ggot
00A223 Yi syllable ggox
00A224 Yi syllable ggo
00A225 Yi syllable ggop
00A226 Yi syllable gget
00A227 Yi syllable ggex
00A228 Yi syllable gge
00A229 Yi syllable ggep
00A22A Yi syllable ggut
00A22B Yi syllable ggux
00A22C Yi syllable ggu
00A22D Yi syllable ggup
00A22E Yi syllable ggurx
00A22F Yi syllable ggur
00A230 Yi syllable mgiex
00A231 Yi syllable mgie
00A232 Yi syllable mgat
00A233 Yi syllable mgax
00A234 Yi syllable mga
00A235 Yi syllable mgap
00A236 Yi syllable mguox
00A237 Yi syllable mguo
00A238 Yi syllable mguop
00A239 Yi syllable mgot
00A23A Yi syllable mgox
00A23B Yi syllable mgo
00A23C Yi syllable mgop
00A23D Yi syllable mgex
00A23E Yi syllable mge
00A23F Yi syllable mgep
00A240 Yi syllable mgut
00A241 Yi syllable mgux
00A242 Yi syllable mgu
00A243 Yi syllable mgup
00A244 Yi syllable mgurx
00A245 Yi syllable mgur
00A246 Yi syllable hxit
00A247 Yi syllable hxix
00A248 Yi syllable hxi
00A249 Yi syllable hxip
00A24A Yi syllable hxiet
00A24B Yi syllable hxiex
00A24C Yi syllable hxie
00A24D Yi syllable hxiep
00A24E Yi syllable hxat
00A24F Yi syllable hxax
00A250 Yi syllable hxa
00A251 Yi syllable hxap
00A252 Yi syllable hxuot
00A253 Yi syllable hxuox
00A254 Yi syllable hxuo
00A255 Yi syllable hxuop
00A256 Yi syllable hxot
00A257 Yi syllable hxox
00A258 Yi syllable hxo
00A259 Yi syllable hxop
00A25A Yi syllable hxex
00A25B Yi syllable hxe
00A25C Yi syllable hxep
00A25D Yi syllable ngiex
00A25E Yi syllable ngie
00A25F Yi syllable ngiep
00A260 Yi syllable ngat
00A261 Yi syllable ngax
00A262 Yi syllable nga
00A263 Yi syllable ngap
00A264 Yi syllable nguot
00A265 Yi syllable nguox
00A266 Yi syllable nguo
00A267 Yi syllable ngot
00A268 Yi syllable ngox
00A269 Yi syllable ngo
00A26A Yi syllable ngop
00A26B Yi syllable ngex
00A26C Yi syllable nge
00A26D Yi syllable ngep
00A26E Yi syllable hit
00A26F Yi syllable hiex
00A270 Yi syllable hie
00A271 Yi syllable hat
00A272 Yi syllable hax
00A273 Yi syllable ha
00A274 Yi syllable hap
00A275 Yi syllable huot
00A276 Yi syllable huox
00A277 Yi syllable huo
00A278 Yi syllable huop
00A279 Yi syllable hot
00A27A Yi syllable hox
00A27B Yi syllable ho
00A27C Yi syllable hop
00A27D Yi syllable hex
00A27E Yi syllable he
00A27F Yi syllable hep
00A280 Yi syllable wat
00A281 Yi syllable wax
00A282 Yi syllable wa
00A283 Yi syllable wap
00A284 Yi syllable wuox
00A285 Yi syllable wuo
00A286 Yi syllable wuop
00A287 Yi syllable wox
00A288 Yi syllable wo
00A289 Yi syllable wop
00A28A Yi syllable wex
00A28B Yi syllable we
00A28C Yi syllable wep
00A28D Yi syllable zit
00A28E Yi syllable zix
00A28F Yi syllable zi
00A290 Yi syllable zip
00A291 Yi syllable ziex
00A292 Yi syllable zie
00A293 Yi syllable ziep
00A294 Yi syllable zat
00A295 Yi syllable zax
00A296 Yi syllable za
00A297 Yi syllable zap
00A298 Yi syllable zuox
00A299 Yi syllable zuo
00A29A Yi syllable zuop
00A29B Yi syllable zot
00A29C Yi syllable zox
00A29D Yi syllable zo
00A29E Yi syllable zop
00A29F Yi syllable zex
00A2A0 Yi syllable ze
00A2A1 Yi syllable zep
00A2A2 Yi syllable zut
00A2A3 Yi syllable zux
00A2A4 Yi syllable zu
00A2A5 Yi syllable zup
00A2A6 Yi syllable zurx
00A2A7 Yi syllable zur
00A2A8 Yi syllable zyt
00A2A9 Yi syllable zyx
00A2AA Yi syllable zy
00A2AB Yi syllable zyp
00A2AC Yi syllable zyrx
00A2AD Yi syllable zyr
00A2AE Yi syllable cit
00A2AF Yi syllable cix
00A2B0 Yi syllable ci
00A2B1 Yi syllable cip
00A2B2 Yi syllable ciet
00A2B3 Yi syllable ciex
00A2B4 Yi syllable cie
00A2B5 Yi syllable ciep
00A2B6 Yi syllable cat
00A2B7 Yi syllable cax
00A2B8 Yi syllable ca
00A2B9 Yi syllable cap
00A2BA Yi syllable cuox
00A2BB Yi syllable cuo
00A2BC Yi syllable cuop
00A2BD Yi syllable cot
00A2BE Yi syllable cox
00A2BF Yi syllable co
00A2C0 Yi syllable cop
00A2C1 Yi syllable cex
00A2C2 Yi syllable ce
00A2C3 Yi syllable cep
00A2C4 Yi syllable cut
00A2C5 Yi syllable cux
00A2C6 Yi syllable cu
00A2C7 Yi syllable cup
00A2C8 Yi syllable curx
00A2C9 Yi syllable cur
00A2CA Yi syllable cyt
00A2CB Yi syllable cyx
00A2CC Yi syllable cy
00A2CD Yi syllable cyp
00A2CE Yi syllable cyrx
00A2CF Yi syllable cyr
00A2D0 Yi syllable zzit
00A2D1 Yi syllable zzix
00A2D2 Yi syllable zzi
00A2D3 Yi syllable zzip
00A2D4 Yi syllable zziet
00A2D5 Yi syllable zziex
00A2D6 Yi syllable zzie
00A2D7 Yi syllable zziep
00A2D8 Yi syllable zzat
00A2D9 Yi syllable zzax
00A2DA Yi syllable zza
00A2DB Yi syllable zzap
00A2DC Yi syllable zzox
00A2DD Yi syllable zzo
00A2DE Yi syllable zzop
00A2DF Yi syllable zzex
00A2E0 Yi syllable zze
00A2E1 Yi syllable zzep
00A2E2 Yi syllable zzux
00A2E3 Yi syllable zzu
00A2E4 Yi syllable zzup
00A2E5 Yi syllable zzurx
00A2E6 Yi syllable zzur
00A2E7 Yi syllable zzyt
00A2E8 Yi syllable zzyx
00A2E9 Yi syllable zzy
00A2EA Yi syllable zzyp
00A2EB Yi syllable zzyrx
00A2EC Yi syllable zzyr
00A2ED Yi syllable nzit
00A2EE Yi syllable nzix
00A2EF Yi syllable nzi
00A2F0 Yi syllable nzip
00A2F1 Yi syllable nziex
00A2F2 Yi syllable nzie
00A2F3 Yi syllable nziep
00A2F4 Yi syllable nzat
00A2F5 Yi syllable nzax
00A2F6 Yi syllable nza
00A2F7 Yi syllable nzap
00A2F8 Yi syllable nzuox
00A2F9 Yi syllable nzuo
00A2FA Yi syllable nzox
00A2FB Yi syllable nzop
00A2FC Yi syllable nzex
00A2FD Yi syllable nze
00A2FE Yi syllable nzux
00A2FF Yi syllable nzu
00A300 Yi syllable nzup
00A301 Yi syllable nzurx
00A302 Yi syllable nzur
00A303 Yi syllable nzyt
00A304 Yi syllable nzyx
00A305 Yi syllable nzy
00A306 Yi syllable nzyp
00A307 Yi syllable nzyrx
00A308 Yi syllable nzyr
00A309 Yi syllable sit
00A30A Yi syllable six
00A30B Yi syllable si
00A30C Yi syllable sip
00A30D Yi syllable siex
00A30E Yi syllable sie
00A30F Yi syllable siep
00A310 Yi syllable sat
00A311 Yi syllable sax
00A312 Yi syllable sa
00A313 Yi syllable sap
00A314 Yi syllable suox
00A315 Yi syllable suo
00A316 Yi syllable suop
00A317 Yi syllable sot
00A318 Yi syllable sox
00A319 Yi syllable so
00A31A Yi syllable sop
00A31B Yi syllable sex
00A31C Yi syllable se
00A31D Yi syllable sep
00A31E Yi syllable sut
00A31F Yi syllable sux
00A320 Yi syllable su
00A321 Yi syllable sup
00A322 Yi syllable surx
00A323 Yi syllable sur
00A324 Yi syllable syt
00A325 Yi syllable syx
00A326 Yi syllable sy
00A327 Yi syllable syp
00A328 Yi syllable syrx
00A329 Yi syllable syr
00A32A Yi syllable ssit
00A32B Yi syllable ssix
00A32C Yi syllable ssi
00A32D Yi syllable ssip
00A32E Yi syllable ssiex
00A32F Yi syllable ssie
00A330 Yi syllable ssiep
00A331 Yi syllable ssat
00A332 Yi syllable ssax
00A333 Yi syllable ssa
00A334 Yi syllable ssap
00A335 Yi syllable ssot
00A336 Yi syllable ssox
00A337 Yi syllable sso
00A338 Yi syllable ssop
00A339 Yi syllable ssex
00A33A Yi syllable sse
00A33B Yi syllable ssep
00A33C Yi syllable ssut
00A33D Yi syllable ssux
00A33E Yi syllable ssu
00A33F Yi syllable ssup
00A340 Yi syllable ssyt
00A341 Yi syllable ssyx
00A342 Yi syllable ssy
00A343 Yi syllable ssyp
00A344 Yi syllable ssyrx
00A345 Yi syllable ssyr
00A346 Yi syllable zhat
00A347 Yi syllable zhax
00A348 Yi syllable zha
00A349 Yi syllable zhap
00A34A Yi syllable zhuox
00A34B Yi syllable zhuo
00A34C Yi syllable zhuop
00A34D Yi syllable zhot
00A34E Yi syllable zhox
00A34F Yi syllable zho
00A350 Yi syllable zhop
00A351 Yi syllable zhet
00A352 Yi syllable zhex
00A353 Yi syllable zhe
00A354 Yi syllable zhep
00A355 Yi syllable zhut
00A356 Yi syllable zhux
00A357 Yi syllable zhu
00A358 Yi syllable zhup
00A359 Yi syllable zhurx
00A35A Yi syllable zhur
00A35B Yi syllable zhyt
00A35C Yi syllable zhyx
00A35D Yi syllable zhy
00A35E Yi syllable zhyp
00A35F Yi syllable zhyrx
00A360 Yi syllable zhyr
00A361 Yi syllable chat
00A362 Yi syllable chax
00A363 Yi syllable cha
00A364 Yi syllable chap
00A365 Yi syllable chuot
00A366 Yi syllable chuox
00A367 Yi syllable chuo
00A368 Yi syllable chuop
00A369 Yi syllable chot
00A36A Yi syllable chox
00A36B Yi syllable cho
00A36C Yi syllable chop
00A36D Yi syllable chet
00A36E Yi syllable chex
00A36F Yi syllable che
00A370 Yi syllable chep
00A371 Yi syllable chux
00A372 Yi syllable chu
00A373 Yi syllable chup
";

pub const NAMES_31: &'static str = "00A374 Yi syllable churx
00A375 Yi syllable chur
00A376 Yi syllable chyt
00A377 Yi syllable chyx
00A378 Yi syllable chy
00A379 Yi syllable chyp
00A37A Yi syllable chyrx
00A37B Yi syllable chyr
00A37C Yi syllable rrax
00A37D Yi syllable rra
00A37E Yi syllable rruox
00A37F Yi syllable rruo
00A380 Yi syllable rrot
00A381 Yi syllable rrox
00A382 Yi syllable rro
00A383 Yi syllable rrop
00A384 Yi syllable rret
00A385 Yi syllable rrex
00A386 Yi syllable rre
00A387 Yi syllable rrep
00A388 Yi syllable rrut
00A389 Yi syllable rrux
00A38A Yi syllable rru
00A38B Yi syllable rrup
00A38C Yi syllable rrurx
00A38D Yi syllable rrur
00A38E Yi syllable rryt
00A38F Yi syllable rryx
00A390 Yi syllable rry
00A391 Yi syllable rryp
00A392 Yi syllable rryrx
00A393 Yi syllable rryr
00A394 Yi syllable nrat
00A395 Yi syllable nrax
00A396 Yi syllable nra
00A397 Yi syllable nrap
00A398 Yi syllable nrox
00A399 Yi syllable nro
00A39A Yi syllable nrop
00A39B Yi syllable nret
00A39C Yi syllable nrex
00A39D Yi syllable nre
00A39E Yi syllable nrep
00A39F Yi syllable nrut
00A3A0 Yi syllable nrux
00A3A1 Yi syllable nru
00A3A2 Yi syllable nrup
00A3A3 Yi syllable nrurx
00A3A4 Yi syllable nrur
00A3A5 Yi syllable nryt
00A3A6 Yi syllable nryx
00A3A7 Yi syllable nry
00A3A8 Yi syllable nryp
00A3A9 Yi syllable nryrx
00A3AA Yi syllable nryr
00A3AB Yi syllable shat
00A3AC Yi syllable shax
00A3AD Yi syllable sha
00A3AE Yi syllable shap
00A3AF Yi syllable shuox
00A3B0 Yi syllable shuo
00A3B1 Yi syllable shuop
00A3B2 Yi syllable shot
00A3B3 Yi syllable shox
00A3B4 Yi syllable sho
00A3B5 Yi syllable shop
00A3B6 Yi syllable shet
00A3B7 Yi syllable shex
00A3B8 Yi syllable she
00A3B9 Yi syllable shep
00A3BA Yi syllable shut
00A3BB Yi syllable shux
00A3BC Yi syllable shu
00A3BD Yi syllable shup
00A3BE Yi syllable shurx
00A3BF Yi syllable shur
00A3C0 Yi syllable shyt
00A3C1 Yi syllable shyx
00A3C2 Yi syllable shy
00A3C3 Yi syllable shyp
00A3C4 Yi syllable shyrx
00A3C5 Yi syllable shyr
00A3C6 Yi syllable rat
00A3C7 Yi syllable rax
00A3C8 Yi syllable ra
00A3C9 Yi syllable rap
00A3CA Yi syllable ruox
00A3CB Yi syllable ruo
00A3CC Yi syllable ruop
00A3CD Yi syllable rot
00A3CE Yi syllable rox
00A3CF Yi syllable ro
00A3D0 Yi syllable rop
00A3D1 Yi syllable rex
00A3D2 Yi syllable re
00A3D3 Yi syllable rep
00A3D4 Yi syllable rut
00A3D5 Yi syllable rux
00A3D6 Yi syllable ru
00A3D7 Yi syllable rup
00A3D8 Yi syllable rurx
00A3D9 Yi syllable rur
00A3DA Yi syllable ryt
00A3DB Yi syllable ryx
00A3DC Yi syllable ry
00A3DD Yi syllable ryp
00A3DE Yi syllable ryrx
00A3DF Yi syllable ryr
00A3E0 Yi syllable jit
00A3E1 Yi syllable jix
00A3E2 Yi syllable ji
00A3E3 Yi syllable jip
00A3E4 Yi syllable jiet
00A3E5 Yi syllable jiex
00A3E6 Yi syllable jie
00A3E7 Yi syllable jiep
00A3E8 Yi syllable juot
00A3E9 Yi syllable juox
00A3EA Yi syllable juo
00A3EB Yi syllable juop
00A3EC Yi syllable jot
00A3ED Yi syllable jox
00A3EE Yi syllable jo
00A3EF Yi syllable jop
00A3F0 Yi syllable jut
00A3F1 Yi syllable jux
00A3F2 Yi syllable ju
00A3F3 Yi syllable jup
00A3F4 Yi syllable jurx
00A3F5 Yi syllable jur
00A3F6 Yi syllable jyt
00A3F7 Yi syllable jyx
00A3F8 Yi syllable jy
00A3F9 Yi syllable jyp
00A3FA Yi syllable jyrx
00A3FB Yi syllable jyr
00A3FC Yi syllable qit
00A3FD Yi syllable qix
00A3FE Yi syllable qi
00A3FF Yi syllable qip
00A400 Yi syllable qiet
00A401 Yi syllable qiex
00A402 Yi syllable qie
00A403 Yi syllable qiep
00A404 Yi syllable quot
00A405 Yi syllable quox
00A406 Yi syllable quo
00A407 Yi syllable quop
00A408 Yi syllable qot
00A409 Yi syllable qox
00A40A Yi syllable qo
00A40B Yi syllable qop
00A40C Yi syllable qut
00A40D Yi syllable qux
00A40E Yi syllable qu
00A40F Yi syllable qup
00A410 Yi syllable qurx
00A411 Yi syllable qur
00A412 Yi syllable qyt
00A413 Yi syllable qyx
00A414 Yi syllable qy
00A415 Yi syllable qyp
00A416 Yi syllable qyrx
00A417 Yi syllable qyr
00A418 Yi syllable jjit
00A419 Yi syllable jjix
00A41A Yi syllable jji
00A41B Yi syllable jjip
00A41C Yi syllable jjiet
00A41D Yi syllable jjiex
00A41E Yi syllable jjie
00A41F Yi syllable jjiep
00A420 Yi syllable jjuox
00A421 Yi syllable jjuo
00A422 Yi syllable jjuop
00A423 Yi syllable jjot
00A424 Yi syllable jjox
00A425 Yi syllable jjo
00A426 Yi syllable jjop
00A427 Yi syllable jjut
00A428 Yi syllable jjux
00A429 Yi syllable jju
00A42A Yi syllable jjup
00A42B Yi syllable jjurx
00A42C Yi syllable jjur
00A42D Yi syllable jjyt
00A42E Yi syllable jjyx
00A42F Yi syllable jjy
00A430 Yi syllable jjyp
00A431 Yi syllable njit
00A432 Yi syllable njix
00A433 Yi syllable nji
00A434 Yi syllable njip
00A435 Yi syllable njiet
00A436 Yi syllable njiex
00A437 Yi syllable njie
00A438 Yi syllable njiep
00A439 Yi syllable njuox
00A43A Yi syllable njuo
00A43B Yi syllable njot
00A43C Yi syllable njox
00A43D Yi syllable njo
00A43E Yi syllable njop
00A43F Yi syllable njux
00A440 Yi syllable nju
00A441 Yi syllable njup
00A442 Yi syllable njurx
00A443 Yi syllable njur
00A444 Yi syllable njyt
00A445 Yi syllable njyx
00A446 Yi syllable njy
00A447 Yi syllable njyp
00A448 Yi syllable njyrx
00A449 Yi syllable njyr
00A44A Yi syllable nyit
00A44B Yi syllable nyix
00A44C Yi syllable nyi
00A44D Yi syllable nyip
00A44E Yi syllable nyiet
00A44F Yi syllable nyiex
00A450 Yi syllable nyie
00A451 Yi syllable nyiep
00A452 Yi syllable nyuox
00A453 Yi syllable nyuo
00A454 Yi syllable nyuop
00A455 Yi syllable nyot
00A456 Yi syllable nyox
00A457 Yi syllable nyo
00A458 Yi syllable nyop
00A459 Yi syllable nyut
00A45A Yi syllable nyux
00A45B Yi syllable nyu
00A45C Yi syllable nyup
00A45D Yi syllable xit
00A45E Yi syllable xix
00A45F Yi syllable xi
00A460 Yi syllable xip
00A461 Yi syllable xiet
00A462 Yi syllable xiex
00A463 Yi syllable xie
00A464 Yi syllable xiep
00A465 Yi syllable xuox
00A466 Yi syllable xuo
00A467 Yi syllable xot
00A468 Yi syllable xox
00A469 Yi syllable xo
00A46A Yi syllable xop
00A46B Yi syllable xyt
00A46C Yi syllable xyx
00A46D Yi syllable xy
00A46E Yi syllable xyp
00A46F Yi syllable xyrx
00A470 Yi syllable xyr
00A471 Yi syllable yit
00A472 Yi syllable yix
00A473 Yi syllable yi
00A474 Yi syllable yip
00A475 Yi syllable yiet
00A476 Yi syllable yiex
00A477 Yi syllable yie
00A478 Yi syllable yiep
00A479 Yi syllable yuot
00A47A Yi syllable yuox
00A47B Yi syllable yuo
00A47C Yi syllable yuop
00A47D Yi syllable yot
00A47E Yi syllable yox
00A47F Yi syllable yo
00A480 Yi syllable yop
00A481 Yi syllable yut
00A482 Yi syllable yux
00A483 Yi syllable yu
00A484 Yi syllable yup
00A485 Yi syllable yurx
00A486 Yi syllable yur
00A487 Yi syllable yyt
00A488 Yi syllable yyx
00A489 Yi syllable yy
00A48A Yi syllable yyp
00A48B Yi syllable yyrx
00A48C Yi syllable yyr
00A490 Yi radical qot
00A491 Yi radical li
00A492 Yi radical kit
00A493 Yi radical nyip
00A494 Yi radical cyp
00A495 Yi radical ssi
00A496 Yi radical ggop
00A497 Yi radical gep
00A498 Yi radical mi
00A499 Yi radical hxit
00A49A Yi radical lyr
00A49B Yi radical bbut
00A49C Yi radical mop
00A49D Yi radical yo
00A49E Yi radical put
00A49F Yi radical hxuo
00A4A0 Yi radical tat
00A4A1 Yi radical ga
00A4A2 Yi radical zup
00A4A3 Yi radical cyt
00A4A4 Yi radical ddur
00A4A5 Yi radical bur
00A4A6 Yi radical gguo
00A4A7 Yi radical nyop
00A4A8 Yi radical tu
00A4A9 Yi radical op
00A4AA Yi radical jjut
00A4AB Yi radical zot
00A4AC Yi radical pyt
00A4AD Yi radical hmo
00A4AE Yi radical yit
00A4AF Yi radical vur
00A4B0 Yi radical shy
00A4B1 Yi radical vep
00A4B2 Yi radical za
00A4B3 Yi radical jo
00A4B4 Yi radical nzup
00A4B5 Yi radical jjy
00A4B6 Yi radical got
00A4B7 Yi radical jjie
00A4B8 Yi radical wo
00A4B9 Yi radical du
00A4BA Yi radical shur
00A4BB Yi radical lie
00A4BC Yi radical cy
00A4BD Yi radical cuop
00A4BE Yi radical cip
00A4BF Yi radical hxop
00A4C0 Yi radical shat
00A4C1 Yi radical zur
00A4C2 Yi radical shop
00A4C3 Yi radical che
00A4C4 Yi radical zziet
00A4C5 Yi radical nbie
00A4C6 Yi radical ke
00A4D0 Lisu letter ba
00A4D1 Lisu letter pa
00A4D2 Lisu letter pha
00A4D3 Lisu letter da
00A4D4 Lisu letter ta
00A4D5 Lisu letter tha
00A4D6 Lisu letter ga
00A4D7 Lisu letter ka
00A4D8 Lisu letter kha
00A4D9 Lisu letter ja
00A4DA Lisu letter ca
00A4DB Lisu letter cha
00A4DC Lisu letter dza
00A4DD Lisu letter tsa
00A4DE Lisu letter tsha
00A4DF Lisu letter ma
00A4E0 Lisu letter na
00A4E1 Lisu letter la
00A4E2 Lisu letter sa
00A4E3 Lisu letter zha
00A4E4 Lisu letter za
00A4E5 Lisu letter nga
00A4E6 Lisu letter ha
00A4E7 Lisu letter xa
00A4E8 Lisu letter hha
00A4E9 Lisu letter fa
00A4EA Lisu letter wa
00A4EB Lisu letter sha
00A4EC Lisu letter ya
00A4ED Lisu letter gha
00A4EE Lisu letter a
00A4EF Lisu letter ae
00A4F0 Lisu letter e
00A4F1 Lisu letter eu
00A4F2 Lisu letter i
00A4F3 Lisu letter o
00A4F4 Lisu letter u
00A4F5 Lisu letter ue
00A4F6 Lisu letter uh
00A4F7 Lisu letter oe
00A4F8 Lisu letter tone mya ti
00A4F9 Lisu letter tone na po
00A4FA Lisu letter tone mya cya
00A4FB Lisu letter tone mya bo
00A4FC Lisu letter tone mya na
00A4FD Lisu letter tone mya jeu
00A4FE Lisu punctuation comma
00A4FF Lisu punctuation full stop
00A500 Vai syllable ee
00A501 Vai syllable een
00A502 Vai syllable hee
00A503 Vai syllable wee
00A504 Vai syllable ween
00A505 Vai syllable pee
00A506 Vai syllable bhee
00A507 Vai syllable bee
00A508 Vai syllable mbee
00A509 Vai syllable kpee
00A50A Vai syllable mgbee
00A50B Vai syllable gbee
00A50C Vai syllable fee
00A50D Vai syllable vee
00A50E Vai syllable tee
00A50F Vai syllable thee
00A510 Vai syllable dhee
00A511 Vai syllable dhhee
00A512 Vai syllable lee
00A513 Vai syllable ree
00A514 Vai syllable dee
00A515 Vai syllable ndee
00A516 Vai syllable see
00A517 Vai syllable shee
00A518 Vai syllable zee
00A519 Vai syllable zhee
00A51A Vai syllable cee
00A51B Vai syllable jee
00A51C Vai syllable njee
00A51D Vai syllable yee
00A51E Vai syllable kee
00A51F Vai syllable nggee
00A520 Vai syllable gee
00A521 Vai syllable mee
00A522 Vai syllable nee
00A523 Vai syllable nyee
00A524 Vai syllable i
00A525 Vai syllable in
00A526 Vai syllable hi
00A527 Vai syllable hin
00A528 Vai syllable wi
00A529 Vai syllable win
00A52A Vai syllable pi
00A52B Vai syllable bhi
00A52C Vai syllable bi
00A52D Vai syllable mbi
00A52E Vai syllable kpi
00A52F Vai syllable mgbi
00A530 Vai syllable gbi
00A531 Vai syllable fi
00A532 Vai syllable vi
00A533 Vai syllable ti
00A534 Vai syllable thi
00A535 Vai syllable dhi
00A536 Vai syllable dhhi
00A537 Vai syllable li
00A538 Vai syllable ri
00A539 Vai syllable di
00A53A Vai syllable ndi
00A53B Vai syllable si
00A53C Vai syllable shi
00A53D Vai syllable zi
00A53E Vai syllable zhi
00A53F Vai syllable ci
00A540 Vai syllable ji
00A541 Vai syllable nji
00A542 Vai syllable yi
00A543 Vai syllable ki
00A544 Vai syllable nggi
00A545 Vai syllable gi
00A546 Vai syllable mi
00A547 Vai syllable ni
00A548 Vai syllable nyi
00A549 Vai syllable a
00A54A Vai syllable an
00A54B Vai syllable ngan
00A54C Vai syllable ha
00A54D Vai syllable han
00A54E Vai syllable wa
00A54F Vai syllable wan
00A550 Vai syllable pa
00A551 Vai syllable bha
00A552 Vai syllable ba
00A553 Vai syllable mba
00A554 Vai syllable kpa
00A555 Vai syllable kpan
00A556 Vai syllable mgba
00A557 Vai syllable gba
00A558 Vai syllable fa
00A559 Vai syllable va
00A55A Vai syllable ta
00A55B Vai syllable tha
00A55C Vai syllable dha
00A55D Vai syllable dhha
00A55E Vai syllable la
00A55F Vai syllable ra
00A560 Vai syllable da
00A561 Vai syllable nda
00A562 Vai syllable sa
00A563 Vai syllable sha
00A564 Vai syllable za
00A565 Vai syllable zha
00A566 Vai syllable ca
00A567 Vai syllable ja
00A568 Vai syllable nja
00A569 Vai syllable ya
00A56A Vai syllable ka
00A56B Vai syllable kan
00A56C Vai syllable ngga
00A56D Vai syllable ga
00A56E Vai syllable ma
00A56F Vai syllable na
00A570 Vai syllable nya
00A571 Vai syllable oo
00A572 Vai syllable oon
00A573 Vai syllable hoo
00A574 Vai syllable woo
00A575 Vai syllable woon
00A576 Vai syllable poo
00A577 Vai syllable bhoo
00A578 Vai syllable boo
00A579 Vai syllable mboo
00A57A Vai syllable kpoo
00A57B Vai syllable mgboo
00A57C Vai syllable gboo
00A57D Vai syllable foo
00A57E Vai syllable voo
00A57F Vai syllable too
00A580 Vai syllable thoo
00A581 Vai syllable dhoo
00A582 Vai syllable dhhoo
00A583 Vai syllable loo
00A584 Vai syllable roo
00A585 Vai syllable doo
00A586 Vai syllable ndoo
00A587 Vai syllable soo
00A588 Vai syllable shoo
00A589 Vai syllable zoo
00A58A Vai syllable zhoo
00A58B Vai syllable coo
00A58C Vai syllable joo
00A58D Vai syllable njoo
00A58E Vai syllable yoo
00A58F Vai syllable koo
00A590 Vai syllable nggoo
00A591 Vai syllable goo
00A592 Vai syllable moo
00A593 Vai syllable noo
00A594 Vai syllable nyoo
00A595 Vai syllable u
00A596 Vai syllable un
00A597 Vai syllable hu
00A598 Vai syllable hun
00A599 Vai syllable wu
00A59A Vai syllable wun
00A59B Vai syllable pu
00A59C Vai syllable bhu
00A59D Vai syllable bu
00A59E Vai syllable mbu
00A59F Vai syllable kpu
00A5A0 Vai syllable mgbu
00A5A1 Vai syllable gbu
00A5A2 Vai syllable fu
00A5A3 Vai syllable vu
00A5A4 Vai syllable tu
00A5A5 Vai syllable thu
00A5A6 Vai syllable dhu
00A5A7 Vai syllable dhhu
00A5A8 Vai syllable lu
00A5A9 Vai syllable ru
00A5AA Vai syllable du
00A5AB Vai syllable ndu
00A5AC Vai syllable su
00A5AD Vai syllable shu
00A5AE Vai syllable zu
00A5AF Vai syllable zhu
00A5B0 Vai syllable cu
00A5B1 Vai syllable ju
00A5B2 Vai syllable nju
00A5B3 Vai syllable yu
00A5B4 Vai syllable ku
00A5B5 Vai syllable nggu
00A5B6 Vai syllable gu
00A5B7 Vai syllable mu
00A5B8 Vai syllable nu
00A5B9 Vai syllable nyu
00A5BA Vai syllable o
00A5BB Vai syllable on
00A5BC Vai syllable ngon
00A5BD Vai syllable ho
00A5BE Vai syllable hon
00A5BF Vai syllable wo
00A5C0 Vai syllable won
00A5C1 Vai syllable po
00A5C2 Vai syllable bho
00A5C3 Vai syllable bo
00A5C4 Vai syllable mbo
00A5C5 Vai syllable kpo
00A5C6 Vai syllable mgbo
00A5C7 Vai syllable gbo
00A5C8 Vai syllable gbon
00A5C9 Vai syllable fo
00A5CA Vai syllable vo
00A5CB Vai syllable to
00A5CC Vai syllable tho
00A5CD Vai syllable dho
00A5CE Vai syllable dhho
00A5CF Vai syllable lo
00A5D0 Vai syllable ro
00A5D1 Vai syllable do
";

pub const NAMES_32: &'static str = "00A5D2 Vai syllable ndo
00A5D3 Vai syllable so
00A5D4 Vai syllable sho
00A5D5 Vai syllable zo
00A5D6 Vai syllable zho
00A5D7 Vai syllable co
00A5D8 Vai syllable jo
00A5D9 Vai syllable njo
00A5DA Vai syllable yo
00A5DB Vai syllable ko
00A5DC Vai syllable nggo
00A5DD Vai syllable go
00A5DE Vai syllable mo
00A5DF Vai syllable no
00A5E0 Vai syllable nyo
00A5E1 Vai syllable e
00A5E2 Vai syllable en
00A5E3 Vai syllable ngen
00A5E4 Vai syllable he
00A5E5 Vai syllable hen
00A5E6 Vai syllable we
00A5E7 Vai syllable wen
00A5E8 Vai syllable pe
00A5E9 Vai syllable bhe
00A5EA Vai syllable be
00A5EB Vai syllable mbe
00A5EC Vai syllable kpe
00A5ED Vai syllable kpen
00A5EE Vai syllable mgbe
00A5EF Vai syllable gbe
00A5F0 Vai syllable gben
00A5F1 Vai syllable fe
00A5F2 Vai syllable ve
00A5F3 Vai syllable te
00A5F4 Vai syllable the
00A5F5 Vai syllable dhe
00A5F6 Vai syllable dhhe
00A5F7 Vai syllable le
00A5F8 Vai syllable re
00A5F9 Vai syllable de
00A5FA Vai syllable nde
00A5FB Vai syllable se
00A5FC Vai syllable she
00A5FD Vai syllable ze
00A5FE Vai syllable zhe
00A5FF Vai syllable ce
00A600 Vai syllable je
00A601 Vai syllable nje
00A602 Vai syllable ye
00A603 Vai syllable ke
00A604 Vai syllable ngge
00A605 Vai syllable nggen
00A606 Vai syllable ge
00A607 Vai syllable gen
00A608 Vai syllable me
00A609 Vai syllable ne
00A60A Vai syllable nye
00A60B Vai syllable ng
00A60C Vai syllable lengthener
00A60D Vai comma
00A60E Vai full stop
00A60F Vai question mark
00A610 Vai syllable ndole fa
00A611 Vai syllable ndole ka
00A612 Vai syllable ndole soo
00A613 Vai symbol feeng
00A614 Vai symbol keeng
00A615 Vai symbol ting
00A616 Vai symbol nii
00A617 Vai symbol bang
00A618 Vai symbol faa
00A619 Vai symbol taa
00A61A Vai symbol dang
00A61B Vai symbol doong
00A61C Vai symbol kung
00A61D Vai symbol tong
00A61E Vai symbol do-o
00A61F Vai symbol jong
00A620 Vai digit zero
00A621 Vai digit one
00A622 Vai digit two
00A623 Vai digit three
00A624 Vai digit four
00A625 Vai digit five
00A626 Vai digit six
00A627 Vai digit seven
00A628 Vai digit eight
00A629 Vai digit nine
00A62A Vai syllable ndole ma
00A62B Vai syllable ndole do
00A640 Cyrillic capital letter zemlya
00A641 Cyrillic small letter zemlya
00A642 Cyrillic capital letter dzelo
00A643 Cyrillic small letter dzelo
00A644 Cyrillic capital letter reversed dze
00A645 Cyrillic small letter reversed dze
00A646 Cyrillic capital letter iota
00A647 Cyrillic small letter iota
00A648 Cyrillic capital letter djerv
00A649 Cyrillic small letter djerv
00A64A Cyrillic capital letter monograph uk
00A64B Cyrillic small letter monograph uk
00A64C Cyrillic capital letter broad omega
00A64D Cyrillic small letter broad omega
00A64E Cyrillic capital letter neutral yer
00A64F Cyrillic small letter neutral yer
00A650 Cyrillic capital letter yeru with back yer
00A651 Cyrillic small letter yeru with back yer
00A652 Cyrillic capital letter iotified yat
00A653 Cyrillic small letter iotified yat
00A654 Cyrillic capital letter reversed yu
00A655 Cyrillic small letter reversed yu
00A656 Cyrillic capital letter iotified a
00A657 Cyrillic small letter iotified a
00A658 Cyrillic capital letter closed little yus
00A659 Cyrillic small letter closed little yus
00A65A Cyrillic capital letter blended yus
00A65B Cyrillic small letter blended yus
00A65C Cyrillic capital letter iotified closed little yus
00A65D Cyrillic small letter iotified closed little yus
00A65E Cyrillic capital letter yn
00A65F Cyrillic small letter yn
00A660 Cyrillic capital letter reversed tse
00A661 Cyrillic small letter reversed tse
00A662 Cyrillic capital letter soft de
00A663 Cyrillic small letter soft de
00A664 Cyrillic capital letter soft el
00A665 Cyrillic small letter soft el
00A666 Cyrillic capital letter soft em
00A667 Cyrillic small letter soft em
00A668 Cyrillic capital letter monocular o
00A669 Cyrillic small letter monocular o
00A66A Cyrillic capital letter binocular o
00A66B Cyrillic small letter binocular o
00A66C Cyrillic capital letter double monocular o
00A66D Cyrillic small letter double monocular o
00A66E Cyrillic letter multiocular o
00A66F Combining cyrillic vzmet
00A670 Combining cyrillic ten millions sign
00A671 Combining cyrillic hundred millions sign
00A672 Combining cyrillic thousand millions sign
00A673 Slavonic asterisk
00A674 Combining cyrillic letter ukrainian ie
00A675 Combining cyrillic letter i
00A676 Combining cyrillic letter yi
00A677 Combining cyrillic letter u
00A678 Combining cyrillic letter hard sign
00A679 Combining cyrillic letter yeru
00A67A Combining cyrillic letter soft sign
00A67B Combining cyrillic letter omega
00A67C Combining cyrillic kavyka
00A67D Combining cyrillic payerok
00A67E Cyrillic kavyka
00A67F Cyrillic payerok
00A680 Cyrillic capital letter dwe
00A681 Cyrillic small letter dwe
00A682 Cyrillic capital letter dzwe
00A683 Cyrillic small letter dzwe
00A684 Cyrillic capital letter zhwe
00A685 Cyrillic small letter zhwe
00A686 Cyrillic capital letter cche
00A687 Cyrillic small letter cche
00A688 Cyrillic capital letter dzze
00A689 Cyrillic small letter dzze
00A68A Cyrillic capital letter te with middle hook
00A68B Cyrillic small letter te with middle hook
00A68C Cyrillic capital letter twe
00A68D Cyrillic small letter twe
00A68E Cyrillic capital letter tswe
00A68F Cyrillic small letter tswe
00A690 Cyrillic capital letter tsse
00A691 Cyrillic small letter tsse
00A692 Cyrillic capital letter tche
00A693 Cyrillic small letter tche
00A694 Cyrillic capital letter hwe
00A695 Cyrillic small letter hwe
00A696 Cyrillic capital letter shwe
00A697 Cyrillic small letter shwe
00A698 Cyrillic capital letter double o
00A699 Cyrillic small letter double o
00A69A Cyrillic capital letter crossed o
00A69B Cyrillic small letter crossed o
00A69C Modifier letter cyrillic hard sign
00A69D Modifier letter cyrillic soft sign
00A69E Combining cyrillic letter ef
00A69F Combining cyrillic letter iotified e
00A6A0 Bamum letter a
00A6A1 Bamum letter ka
00A6A2 Bamum letter u
00A6A3 Bamum letter ku
00A6A4 Bamum letter ee
00A6A5 Bamum letter ree
00A6A6 Bamum letter tae
00A6A7 Bamum letter o
00A6A8 Bamum letter nyi
00A6A9 Bamum letter i
00A6AA Bamum letter la
00A6AB Bamum letter pa
00A6AC Bamum letter rii
00A6AD Bamum letter riee
00A6AE Bamum letter leeee
00A6AF Bamum letter meeee
00A6B0 Bamum letter taa
00A6B1 Bamum letter ndaa
00A6B2 Bamum letter njaem
00A6B3 Bamum letter m
00A6B4 Bamum letter suu
00A6B5 Bamum letter mu
00A6B6 Bamum letter shii
00A6B7 Bamum letter si
00A6B8 Bamum letter sheux
00A6B9 Bamum letter seux
00A6BA Bamum letter kyee
00A6BB Bamum letter ket
00A6BC Bamum letter nuae
00A6BD Bamum letter nu
00A6BE Bamum letter njuae
00A6BF Bamum letter yoq
00A6C0 Bamum letter shu
00A6C1 Bamum letter yuq
00A6C2 Bamum letter ya
00A6C3 Bamum letter nsha
00A6C4 Bamum letter keux
00A6C5 Bamum letter peux
00A6C6 Bamum letter njee
00A6C7 Bamum letter ntee
00A6C8 Bamum letter pue
00A6C9 Bamum letter wue
00A6CA Bamum letter pee
00A6CB Bamum letter fee
00A6CC Bamum letter ru
00A6CD Bamum letter lu
00A6CE Bamum letter mi
00A6CF Bamum letter ni
00A6D0 Bamum letter reux
00A6D1 Bamum letter rae
00A6D2 Bamum letter ken
00A6D3 Bamum letter ngkwaen
00A6D4 Bamum letter ngga
00A6D5 Bamum letter nga
00A6D6 Bamum letter sho
00A6D7 Bamum letter puae
00A6D8 Bamum letter fu
00A6D9 Bamum letter fom
00A6DA Bamum letter wa
00A6DB Bamum letter na
00A6DC Bamum letter li
00A6DD Bamum letter pi
00A6DE Bamum letter loq
00A6DF Bamum letter ko
00A6E0 Bamum letter mben
00A6E1 Bamum letter ren
00A6E2 Bamum letter men
00A6E3 Bamum letter ma
00A6E4 Bamum letter ti
00A6E5 Bamum letter ki
00A6E6 Bamum letter mo
00A6E7 Bamum letter mbaa
00A6E8 Bamum letter tet
00A6E9 Bamum letter kpa
00A6EA Bamum letter ten
00A6EB Bamum letter ntuu
00A6EC Bamum letter samba
00A6ED Bamum letter faamae
00A6EE Bamum letter kovuu
00A6EF Bamum letter koghom
00A6F0 Bamum combining mark koqndon
00A6F1 Bamum combining mark tukwentis
00A6F2 Bamum njaemli
00A6F3 Bamum full stop
00A6F4 Bamum colon
00A6F5 Bamum comma
00A6F6 Bamum semicolon
00A6F7 Bamum question mark
00A700 Modifier letter chinese tone yin ping
00A701 Modifier letter chinese tone yang ping
00A702 Modifier letter chinese tone yin shang
00A703 Modifier letter chinese tone yang shang
00A704 Modifier letter chinese tone yin qu
00A705 Modifier letter chinese tone yang qu
00A706 Modifier letter chinese tone yin ru
00A707 Modifier letter chinese tone yang ru
00A708 Modifier letter extra-high dotted tone bar
00A709 Modifier letter high dotted tone bar
00A70A Modifier letter mid dotted tone bar
00A70B Modifier letter low dotted tone bar
00A70C Modifier letter extra-low dotted tone bar
00A70D Modifier letter extra-high dotted left-stem tone bar
00A70E Modifier letter high dotted left-stem tone bar
00A70F Modifier letter mid dotted left-stem tone bar
00A710 Modifier letter low dotted left-stem tone bar
00A711 Modifier letter extra-low dotted left-stem tone bar
00A712 Modifier letter extra-high left-stem tone bar
00A713 Modifier letter high left-stem tone bar
00A714 Modifier letter mid left-stem tone bar
00A715 Modifier letter low left-stem tone bar
00A716 Modifier letter extra-low left-stem tone bar
00A717 Modifier letter dot vertical bar
00A718 Modifier letter dot slash
00A719 Modifier letter dot horizontal bar
00A71A Modifier letter lower right corner angle
00A71B Modifier letter raised up arrow
00A71C Modifier letter raised down arrow
00A71D Modifier letter raised exclamation mark
00A71E Modifier letter raised inverted exclamation mark
00A71F Modifier letter low inverted exclamation mark
00A720 Modifier letter stress and high tone
00A721 Modifier letter stress and low tone
00A722 Latin capital letter egyptological alef
00A723 Latin small letter egyptological alef
00A724 Latin capital letter egyptological ain
00A725 Latin small letter egyptological ain
00A726 Latin capital letter heng
00A727 Latin small letter heng
00A728 Latin capital letter tz
00A729 Latin small letter tz
00A72A Latin capital letter tresillo
00A72B Latin small letter tresillo
00A72C Latin capital letter cuatrillo
00A72D Latin small letter cuatrillo
00A72E Latin capital letter cuatrillo with comma
00A72F Latin small letter cuatrillo with comma
00A730 Latin letter small capital f
00A731 Latin letter small capital s
00A732 Latin capital letter aa
00A733 Latin small letter aa
00A734 Latin capital letter ao
00A735 Latin small letter ao
00A736 Latin capital letter au
00A737 Latin small letter au
00A738 Latin capital letter av
00A739 Latin small letter av
00A73A Latin capital letter av with horizontal bar
00A73B Latin small letter av with horizontal bar
00A73C Latin capital letter ay
00A73D Latin small letter ay
00A73E Latin capital letter reversed c with dot
00A73F Latin small letter reversed c with dot
00A740 Latin capital letter k with stroke
00A741 Latin small letter k with stroke
00A742 Latin capital letter k with diagonal stroke
00A743 Latin small letter k with diagonal stroke
00A744 Latin capital letter k with stroke and diagonal stroke
00A745 Latin small letter k with stroke and diagonal stroke
00A746 Latin capital letter broken l
00A747 Latin small letter broken l
00A748 Latin capital letter l with high stroke
00A749 Latin small letter l with high stroke
00A74A Latin capital letter o with long stroke overlay
00A74B Latin small letter o with long stroke overlay
00A74C Latin capital letter o with loop
00A74D Latin small letter o with loop
00A74E Latin capital letter oo
00A74F Latin small letter oo
00A750 Latin capital letter p with stroke through descender
00A751 Latin small letter p with stroke through descender
00A752 Latin capital letter p with flourish
00A753 Latin small letter p with flourish
00A754 Latin capital letter p with squirrel tail
00A755 Latin small letter p with squirrel tail
00A756 Latin capital letter q with stroke through descender
00A757 Latin small letter q with stroke through descender
00A758 Latin capital letter q with diagonal stroke
00A759 Latin small letter q with diagonal stroke
00A75A Latin capital letter r rotunda
00A75B Latin small letter r rotunda
00A75C Latin capital letter rum rotunda
00A75D Latin small letter rum rotunda
00A75E Latin capital letter v with diagonal stroke
00A75F Latin small letter v with diagonal stroke
00A760 Latin capital letter vy
00A761 Latin small letter vy
00A762 Latin capital letter visigothic z
00A763 Latin small letter visigothic z
00A764 Latin capital letter thorn with stroke
00A765 Latin small letter thorn with stroke
00A766 Latin capital letter thorn with stroke through descender
00A767 Latin small letter thorn with stroke through descender
00A768 Latin capital letter vend
00A769 Latin small letter vend
00A76A Latin capital letter et
00A76B Latin small letter et
00A76C Latin capital letter is
00A76D Latin small letter is
00A76E Latin capital letter con
00A76F Latin small letter con
00A770 Modifier letter us
00A771 Latin small letter dum
00A772 Latin small letter lum
00A773 Latin small letter mum
00A774 Latin small letter num
00A775 Latin small letter rum
00A776 Latin letter small capital rum
00A777 Latin small letter tum
00A778 Latin small letter um
00A779 Latin capital letter insular d
00A77A Latin small letter insular d
00A77B Latin capital letter insular f
00A77C Latin small letter insular f
00A77D Latin capital letter insular g
00A77E Latin capital letter turned insular g
00A77F Latin small letter turned insular g
00A780 Latin capital letter turned l
00A781 Latin small letter turned l
00A782 Latin capital letter insular r
00A783 Latin small letter insular r
00A784 Latin capital letter insular s
00A785 Latin small letter insular s
00A786 Latin capital letter insular t
00A787 Latin small letter insular t
00A788 Modifier letter low circumflex accent
00A789 Modifier letter colon
00A78A Modifier letter short equals sign
00A78B Latin capital letter saltillo
00A78C Latin small letter saltillo
00A78D Latin capital letter turned h
00A78E Latin small letter l with retroflex hook and belt
00A78F Latin letter sinological dot
";

pub const NAMES_33: &'static str = "00A790 Latin capital letter n with descender
00A791 Latin small letter n with descender
00A792 Latin capital letter c with bar
00A793 Latin small letter c with bar
00A794 Latin small letter c with palatal hook
00A795 Latin small letter h with palatal hook
00A796 Latin capital letter b with flourish
00A797 Latin small letter b with flourish
00A798 Latin capital letter f with stroke
00A799 Latin small letter f with stroke
00A79A Latin capital letter volapuk ae
00A79B Latin small letter volapuk ae
00A79C Latin capital letter volapuk oe
00A79D Latin small letter volapuk oe
00A79E Latin capital letter volapuk ue
00A79F Latin small letter volapuk ue
00A7A0 Latin capital letter g with oblique stroke
00A7A1 Latin small letter g with oblique stroke
00A7A2 Latin capital letter k with oblique stroke
00A7A3 Latin small letter k with oblique stroke
00A7A4 Latin capital letter n with oblique stroke
00A7A5 Latin small letter n with oblique stroke
00A7A6 Latin capital letter r with oblique stroke
00A7A7 Latin small letter r with oblique stroke
00A7A8 Latin capital letter s with oblique stroke
00A7A9 Latin small letter s with oblique stroke
00A7AA Latin capital letter h with hook
00A7AB Latin capital letter reversed open e
00A7AC Latin capital letter script g
00A7AD Latin capital letter l with belt
00A7AE Latin capital letter small capital i
00A7AF Latin letter small capital q
00A7B0 Latin capital letter turned k
00A7B1 Latin capital letter turned t
00A7B2 Latin capital letter j with crossed-tail
00A7B3 Latin capital letter chi
00A7B4 Latin capital letter beta
00A7B5 Latin small letter beta
00A7B6 Latin capital letter omega
00A7B7 Latin small letter omega
00A7B8 Latin capital letter u with stroke
00A7B9 Latin small letter u with stroke
00A7BA Latin capital letter glottal a
00A7BB Latin small letter glottal a
00A7BC Latin capital letter glottal i
00A7BD Latin small letter glottal i
00A7BE Latin capital letter glottal u
00A7BF Latin small letter glottal u
00A7C0 Latin capital letter old polish o
00A7C1 Latin small letter old polish o
00A7C2 Latin capital letter anglicana w
00A7C3 Latin small letter anglicana w
00A7C4 Latin capital letter c with palatal hook
00A7C5 Latin capital letter s with hook
00A7C6 Latin capital letter z with palatal hook
00A7C7 Latin capital letter d with short stroke overlay
00A7C8 Latin small letter d with short stroke overlay
00A7C9 Latin capital letter s with short stroke overlay
00A7CA Latin small letter s with short stroke overlay
00A7D0 Latin capital letter closed insular g
00A7D1 Latin small letter closed insular g
00A7D3 Latin small letter double thorn
00A7D5 Latin small letter double wynn
00A7D6 Latin capital letter middle scots s
00A7D7 Latin small letter middle scots s
00A7D8 Latin capital letter sigmoid s
00A7D9 Latin small letter sigmoid s
00A7F2 Modifier letter capital c
00A7F3 Modifier letter capital f
00A7F4 Modifier letter capital q
00A7F5 Latin capital letter reversed half h
00A7F6 Latin small letter reversed half h
00A7F7 Latin epigraphic letter sideways i
00A7F8 Modifier letter capital h with stroke
00A7F9 Modifier letter small ligature oe
00A7FA Latin letter small capital turned m
00A7FB Latin epigraphic letter reversed f
00A7FC Latin epigraphic letter reversed p
00A7FD Latin epigraphic letter inverted m
00A7FE Latin epigraphic letter i longa
00A7FF Latin epigraphic letter archaic m
00A800 Syloti nagri letter a
00A801 Syloti nagri letter i
00A802 Syloti nagri sign dvisvara
00A803 Syloti nagri letter u
00A804 Syloti nagri letter e
00A805 Syloti nagri letter o
00A806 Syloti nagri sign hasanta
00A807 Syloti nagri letter ko
00A808 Syloti nagri letter kho
00A809 Syloti nagri letter go
00A80A Syloti nagri letter gho
00A80B Syloti nagri sign anusvara
00A80C Syloti nagri letter co
00A80D Syloti nagri letter cho
00A80E Syloti nagri letter jo
00A80F Syloti nagri letter jho
00A810 Syloti nagri letter tto
00A811 Syloti nagri letter ttho
00A812 Syloti nagri letter ddo
00A813 Syloti nagri letter ddho
00A814 Syloti nagri letter to
00A815 Syloti nagri letter tho
00A816 Syloti nagri letter do
00A817 Syloti nagri letter dho
00A818 Syloti nagri letter no
00A819 Syloti nagri letter po
00A81A Syloti nagri letter pho
00A81B Syloti nagri letter bo
00A81C Syloti nagri letter bho
00A81D Syloti nagri letter mo
00A81E Syloti nagri letter ro
00A81F Syloti nagri letter lo
00A820 Syloti nagri letter rro
00A821 Syloti nagri letter so
00A822 Syloti nagri letter ho
00A823 Syloti nagri vowel sign a
00A824 Syloti nagri vowel sign i
00A825 Syloti nagri vowel sign u
00A826 Syloti nagri vowel sign e
00A827 Syloti nagri vowel sign oo
00A828 Syloti nagri poetry mark-1
00A829 Syloti nagri poetry mark-2
00A82A Syloti nagri poetry mark-3
00A82B Syloti nagri poetry mark-4
00A82C Syloti nagri sign alternate hasanta
00A830 North indic fraction one quarter
00A831 North indic fraction one half
00A832 North indic fraction three quarters
00A833 North indic fraction one sixteenth
00A834 North indic fraction one eighth
00A835 North indic fraction three sixteenths
00A836 North indic quarter mark
00A837 North indic placeholder mark
00A838 North indic rupee mark
00A839 North indic quantity mark
00A840 Phags-pa letter ka
00A841 Phags-pa letter kha
00A842 Phags-pa letter ga
00A843 Phags-pa letter nga
00A844 Phags-pa letter ca
00A845 Phags-pa letter cha
00A846 Phags-pa letter ja
00A847 Phags-pa letter nya
00A848 Phags-pa letter ta
00A849 Phags-pa letter tha
00A84A Phags-pa letter da
00A84B Phags-pa letter na
00A84C Phags-pa letter pa
00A84D Phags-pa letter pha
00A84E Phags-pa letter ba
00A84F Phags-pa letter ma
00A850 Phags-pa letter tsa
00A851 Phags-pa letter tsha
00A852 Phags-pa letter dza
00A853 Phags-pa letter wa
00A854 Phags-pa letter zha
00A855 Phags-pa letter za
00A856 Phags-pa letter small a
00A857 Phags-pa letter ya
00A858 Phags-pa letter ra
00A859 Phags-pa letter la
00A85A Phags-pa letter sha
00A85B Phags-pa letter sa
00A85C Phags-pa letter ha
00A85D Phags-pa letter a
00A85E Phags-pa letter i
00A85F Phags-pa letter u
00A860 Phags-pa letter e
00A861 Phags-pa letter o
00A862 Phags-pa letter qa
00A863 Phags-pa letter xa
00A864 Phags-pa letter fa
00A865 Phags-pa letter gga
00A866 Phags-pa letter ee
00A867 Phags-pa subjoined letter wa
00A868 Phags-pa subjoined letter ya
00A869 Phags-pa letter tta
00A86A Phags-pa letter ttha
00A86B Phags-pa letter dda
00A86C Phags-pa letter nna
00A86D Phags-pa letter alternate ya
00A86E Phags-pa letter voiceless sha
00A86F Phags-pa letter voiced ha
00A870 Phags-pa letter aspirated fa
00A871 Phags-pa subjoined letter ra
00A872 Phags-pa superfixed letter ra
00A873 Phags-pa letter candrabindu
00A874 Phags-pa single head mark
00A875 Phags-pa double head mark
00A876 Phags-pa mark shad
00A877 Phags-pa mark double shad
00A880 Saurashtra sign anusvara
00A881 Saurashtra sign visarga
00A882 Saurashtra letter a
00A883 Saurashtra letter aa
00A884 Saurashtra letter i
00A885 Saurashtra letter ii
00A886 Saurashtra letter u
00A887 Saurashtra letter uu
00A888 Saurashtra letter vocalic r
00A889 Saurashtra letter vocalic rr
00A88A Saurashtra letter vocalic l
00A88B Saurashtra letter vocalic ll
00A88C Saurashtra letter e
00A88D Saurashtra letter ee
00A88E Saurashtra letter ai
00A88F Saurashtra letter o
00A890 Saurashtra letter oo
00A891 Saurashtra letter au
00A892 Saurashtra letter ka
00A893 Saurashtra letter kha
00A894 Saurashtra letter ga
00A895 Saurashtra letter gha
00A896 Saurashtra letter nga
00A897 Saurashtra letter ca
00A898 Saurashtra letter cha
00A899 Saurashtra letter ja
00A89A Saurashtra letter jha
00A89B Saurashtra letter nya
00A89C Saurashtra letter tta
00A89D Saurashtra letter ttha
00A89E Saurashtra letter dda
00A89F Saurashtra letter ddha
00A8A0 Saurashtra letter nna
00A8A1 Saurashtra letter ta
00A8A2 Saurashtra letter tha
00A8A3 Saurashtra letter da
00A8A4 Saurashtra letter dha
00A8A5 Saurashtra letter na
00A8A6 Saurashtra letter pa
00A8A7 Saurashtra letter pha
00A8A8 Saurashtra letter ba
00A8A9 Saurashtra letter bha
00A8AA Saurashtra letter ma
00A8AB Saurashtra letter ya
00A8AC Saurashtra letter ra
00A8AD Saurashtra letter la
00A8AE Saurashtra letter va
00A8AF Saurashtra letter sha
00A8B0 Saurashtra letter ssa
00A8B1 Saurashtra letter sa
00A8B2 Saurashtra letter ha
00A8B3 Saurashtra letter lla
00A8B4 Saurashtra consonant sign haaru
00A8B5 Saurashtra vowel sign aa
00A8B6 Saurashtra vowel sign i
00A8B7 Saurashtra vowel sign ii
00A8B8 Saurashtra vowel sign u
00A8B9 Saurashtra vowel sign uu
00A8BA Saurashtra vowel sign vocalic r
00A8BB Saurashtra vowel sign vocalic rr
00A8BC Saurashtra vowel sign vocalic l
00A8BD Saurashtra vowel sign vocalic ll
00A8BE Saurashtra vowel sign e
00A8BF Saurashtra vowel sign ee
00A8C0 Saurashtra vowel sign ai
00A8C1 Saurashtra vowel sign o
00A8C2 Saurashtra vowel sign oo
00A8C3 Saurashtra vowel sign au
00A8C4 Saurashtra sign virama
00A8C5 Saurashtra sign candrabindu
00A8CE Saurashtra danda
00A8CF Saurashtra double danda
00A8D0 Saurashtra digit zero
00A8D1 Saurashtra digit one
00A8D2 Saurashtra digit two
00A8D3 Saurashtra digit three
00A8D4 Saurashtra digit four
00A8D5 Saurashtra digit five
00A8D6 Saurashtra digit six
00A8D7 Saurashtra digit seven
00A8D8 Saurashtra digit eight
00A8D9 Saurashtra digit nine
00A8E0 Combining devanagari digit zero
00A8E1 Combining devanagari digit one
00A8E2 Combining devanagari digit two
00A8E3 Combining devanagari digit three
00A8E4 Combining devanagari digit four
00A8E5 Combining devanagari digit five
00A8E6 Combining devanagari digit six
00A8E7 Combining devanagari digit seven
00A8E8 Combining devanagari digit eight
00A8E9 Combining devanagari digit nine
00A8EA Combining devanagari letter a
00A8EB Combining devanagari letter u
00A8EC Combining devanagari letter ka
00A8ED Combining devanagari letter na
00A8EE Combining devanagari letter pa
00A8EF Combining devanagari letter ra
00A8F0 Combining devanagari letter vi
00A8F1 Combining devanagari sign avagraha
00A8F2 Devanagari sign spacing candrabindu
00A8F3 Devanagari sign candrabindu virama
00A8F4 Devanagari sign double candrabindu virama
00A8F5 Devanagari sign candrabindu two
00A8F6 Devanagari sign candrabindu three
00A8F7 Devanagari sign candrabindu avagraha
00A8F8 Devanagari sign pushpika
00A8F9 Devanagari gap filler
00A8FA Devanagari caret
00A8FB Devanagari headstroke
00A8FC Devanagari sign siddham
00A8FD Devanagari jain om
00A8FE Devanagari letter ay
00A8FF Devanagari vowel sign ay
00A900 Kayah li digit zero
00A901 Kayah li digit one
00A902 Kayah li digit two
00A903 Kayah li digit three
00A904 Kayah li digit four
00A905 Kayah li digit five
00A906 Kayah li digit six
00A907 Kayah li digit seven
00A908 Kayah li digit eight
00A909 Kayah li digit nine
00A90A Kayah li letter ka
00A90B Kayah li letter kha
00A90C Kayah li letter ga
00A90D Kayah li letter nga
00A90E Kayah li letter sa
00A90F Kayah li letter sha
00A910 Kayah li letter za
00A911 Kayah li letter nya
00A912 Kayah li letter ta
00A913 Kayah li letter hta
00A914 Kayah li letter na
00A915 Kayah li letter pa
00A916 Kayah li letter pha
00A917 Kayah li letter ma
00A918 Kayah li letter da
00A919 Kayah li letter ba
00A91A Kayah li letter ra
00A91B Kayah li letter ya
00A91C Kayah li letter la
00A91D Kayah li letter wa
00A91E Kayah li letter tha
00A91F Kayah li letter ha
00A920 Kayah li letter va
00A921 Kayah li letter ca
00A922 Kayah li letter a
00A923 Kayah li letter oe
00A924 Kayah li letter i
00A925 Kayah li letter oo
00A926 Kayah li vowel ue
00A927 Kayah li vowel e
00A928 Kayah li vowel u
00A929 Kayah li vowel ee
00A92A Kayah li vowel o
00A92B Kayah li tone plophu
00A92C Kayah li tone calya
00A92D Kayah li tone calya plophu
00A92E Kayah li sign cwi
00A92F Kayah li sign shya
00A930 Rejang letter ka
00A931 Rejang letter ga
00A932 Rejang letter nga
00A933 Rejang letter ta
00A934 Rejang letter da
00A935 Rejang letter na
00A936 Rejang letter pa
00A937 Rejang letter ba
00A938 Rejang letter ma
00A939 Rejang letter ca
00A93A Rejang letter ja
00A93B Rejang letter nya
00A93C Rejang letter sa
00A93D Rejang letter ra
00A93E Rejang letter la
00A93F Rejang letter ya
00A940 Rejang letter wa
00A941 Rejang letter ha
00A942 Rejang letter mba
00A943 Rejang letter ngga
00A944 Rejang letter nda
00A945 Rejang letter nyja
00A946 Rejang letter a
00A947 Rejang vowel sign i
00A948 Rejang vowel sign u
00A949 Rejang vowel sign e
00A94A Rejang vowel sign ai
00A94B Rejang vowel sign o
00A94C Rejang vowel sign au
00A94D Rejang vowel sign eu
00A94E Rejang vowel sign ea
00A94F Rejang consonant sign ng
00A950 Rejang consonant sign n
00A951 Rejang consonant sign r
00A952 Rejang consonant sign h
00A953 Rejang virama
00A95F Rejang section mark
00A960 Hangul choseong tikeut-mieum
00A961 Hangul choseong tikeut-pieup
00A962 Hangul choseong tikeut-sios
00A963 Hangul choseong tikeut-cieuc
00A964 Hangul choseong rieul-kiyeok
00A965 Hangul choseong rieul-ssangkiyeok
00A966 Hangul choseong rieul-tikeut
00A967 Hangul choseong rieul-ssangtikeut
00A968 Hangul choseong rieul-mieum
00A969 Hangul choseong rieul-pieup
00A96A Hangul choseong rieul-ssangpieup
00A96B Hangul choseong rieul-kapyeounpieup
00A96C Hangul choseong rieul-sios
00A96D Hangul choseong rieul-cieuc
00A96E Hangul choseong rieul-khieukh
00A96F Hangul choseong mieum-kiyeok
00A970 Hangul choseong mieum-tikeut
00A971 Hangul choseong mieum-sios
00A972 Hangul choseong pieup-sios-thieuth
00A973 Hangul choseong pieup-khieukh
00A974 Hangul choseong pieup-hieuh
00A975 Hangul choseong ssangsios-pieup
00A976 Hangul choseong ieung-rieul
00A977 Hangul choseong ieung-hieuh
00A978 Hangul choseong ssangcieuc-hieuh
00A979 Hangul choseong ssangthieuth
00A97A Hangul choseong phieuph-hieuh
00A97B Hangul choseong hieuh-sios
00A97C Hangul choseong ssangyeorinhieuh
00A980 Javanese sign panyangga
00A981 Javanese sign cecak
00A982 Javanese sign layar
00A983 Javanese sign wignyan
00A984 Javanese letter a
00A985 Javanese letter i kawi
00A986 Javanese letter i
00A987 Javanese letter ii
00A988 Javanese letter u
00A989 Javanese letter pa cerek
00A98A Javanese letter nga lelet
";

pub const NAMES_34: &'static str = "00A98B Javanese letter nga lelet raswadi
00A98C Javanese letter e
00A98D Javanese letter ai
00A98E Javanese letter o
00A98F Javanese letter ka
00A990 Javanese letter ka sasak
00A991 Javanese letter ka murda
00A992 Javanese letter ga
00A993 Javanese letter ga murda
00A994 Javanese letter nga
00A995 Javanese letter ca
00A996 Javanese letter ca murda
00A997 Javanese letter ja
00A998 Javanese letter nya murda
00A999 Javanese letter ja mahaprana
00A99A Javanese letter nya
00A99B Javanese letter tta
00A99C Javanese letter tta mahaprana
00A99D Javanese letter dda
00A99E Javanese letter dda mahaprana
00A99F Javanese letter na murda
00A9A0 Javanese letter ta
00A9A1 Javanese letter ta murda
00A9A2 Javanese letter da
00A9A3 Javanese letter da mahaprana
00A9A4 Javanese letter na
00A9A5 Javanese letter pa
00A9A6 Javanese letter pa murda
00A9A7 Javanese letter ba
00A9A8 Javanese letter ba murda
00A9A9 Javanese letter ma
00A9AA Javanese letter ya
00A9AB Javanese letter ra
00A9AC Javanese letter ra agung
00A9AD Javanese letter la
00A9AE Javanese letter wa
00A9AF Javanese letter sa murda
00A9B0 Javanese letter sa mahaprana
00A9B1 Javanese letter sa
00A9B2 Javanese letter ha
00A9B3 Javanese sign cecak telu
00A9B4 Javanese vowel sign tarung
00A9B5 Javanese vowel sign tolong
00A9B6 Javanese vowel sign wulu
00A9B7 Javanese vowel sign wulu melik
00A9B8 Javanese vowel sign suku
00A9B9 Javanese vowel sign suku mendut
00A9BA Javanese vowel sign taling
00A9BB Javanese vowel sign dirga mure
00A9BC Javanese vowel sign pepet
00A9BD Javanese consonant sign keret
00A9BE Javanese consonant sign pengkal
00A9BF Javanese consonant sign cakra
00A9C0 Javanese pangkon
00A9C1 Javanese left rerenggan
00A9C2 Javanese right rerenggan
00A9C3 Javanese pada andap
00A9C4 Javanese pada madya
00A9C5 Javanese pada luhur
00A9C6 Javanese pada windu
00A9C7 Javanese pada pangkat
00A9C8 Javanese pada lingsa
00A9C9 Javanese pada lungsi
00A9CA Javanese pada adeg
00A9CB Javanese pada adeg adeg
00A9CC Javanese pada piseleh
00A9CD Javanese turned pada piseleh
00A9CF Javanese pangrangkep
00A9D0 Javanese digit zero
00A9D1 Javanese digit one
00A9D2 Javanese digit two
00A9D3 Javanese digit three
00A9D4 Javanese digit four
00A9D5 Javanese digit five
00A9D6 Javanese digit six
00A9D7 Javanese digit seven
00A9D8 Javanese digit eight
00A9D9 Javanese digit nine
00A9DE Javanese pada tirta tumetes
00A9DF Javanese pada isen-isen
00A9E0 Myanmar letter shan gha
00A9E1 Myanmar letter shan cha
00A9E2 Myanmar letter shan jha
00A9E3 Myanmar letter shan nna
00A9E4 Myanmar letter shan bha
00A9E5 Myanmar sign shan saw
00A9E6 Myanmar modifier letter shan reduplication
00A9E7 Myanmar letter tai laing nya
00A9E8 Myanmar letter tai laing fa
00A9E9 Myanmar letter tai laing ga
00A9EA Myanmar letter tai laing gha
00A9EB Myanmar letter tai laing ja
00A9EC Myanmar letter tai laing jha
00A9ED Myanmar letter tai laing dda
00A9EE Myanmar letter tai laing ddha
00A9EF Myanmar letter tai laing nna
00A9F0 Myanmar tai laing digit zero
00A9F1 Myanmar tai laing digit one
00A9F2 Myanmar tai laing digit two
00A9F3 Myanmar tai laing digit three
00A9F4 Myanmar tai laing digit four
00A9F5 Myanmar tai laing digit five
00A9F6 Myanmar tai laing digit six
00A9F7 Myanmar tai laing digit seven
00A9F8 Myanmar tai laing digit eight
00A9F9 Myanmar tai laing digit nine
00A9FA Myanmar letter tai laing lla
00A9FB Myanmar letter tai laing da
00A9FC Myanmar letter tai laing dha
00A9FD Myanmar letter tai laing ba
00A9FE Myanmar letter tai laing bha
00AA00 Cham letter a
00AA01 Cham letter i
00AA02 Cham letter u
00AA03 Cham letter e
00AA04 Cham letter ai
00AA05 Cham letter o
00AA06 Cham letter ka
00AA07 Cham letter kha
00AA08 Cham letter ga
00AA09 Cham letter gha
00AA0A Cham letter ngue
00AA0B Cham letter nga
00AA0C Cham letter cha
00AA0D Cham letter chha
00AA0E Cham letter ja
00AA0F Cham letter jha
00AA10 Cham letter nhue
00AA11 Cham letter nha
00AA12 Cham letter nhja
00AA13 Cham letter ta
00AA14 Cham letter tha
00AA15 Cham letter da
00AA16 Cham letter dha
00AA17 Cham letter nue
00AA18 Cham letter na
00AA19 Cham letter dda
00AA1A Cham letter pa
00AA1B Cham letter ppa
00AA1C Cham letter pha
00AA1D Cham letter ba
00AA1E Cham letter bha
00AA1F Cham letter mue
00AA20 Cham letter ma
00AA21 Cham letter bba
00AA22 Cham letter ya
00AA23 Cham letter ra
00AA24 Cham letter la
00AA25 Cham letter va
00AA26 Cham letter ssa
00AA27 Cham letter sa
00AA28 Cham letter ha
00AA29 Cham vowel sign aa
00AA2A Cham vowel sign i
00AA2B Cham vowel sign ii
00AA2C Cham vowel sign ei
00AA2D Cham vowel sign u
00AA2E Cham vowel sign oe
00AA2F Cham vowel sign o
00AA30 Cham vowel sign ai
00AA31 Cham vowel sign au
00AA32 Cham vowel sign ue
00AA33 Cham consonant sign ya
00AA34 Cham consonant sign ra
00AA35 Cham consonant sign la
00AA36 Cham consonant sign wa
00AA40 Cham letter final k
00AA41 Cham letter final g
00AA42 Cham letter final ng
00AA43 Cham consonant sign final ng
00AA44 Cham letter final ch
00AA45 Cham letter final t
00AA46 Cham letter final n
00AA47 Cham letter final p
00AA48 Cham letter final y
00AA49 Cham letter final r
00AA4A Cham letter final l
00AA4B Cham letter final ss
00AA4C Cham consonant sign final m
00AA4D Cham consonant sign final h
00AA50 Cham digit zero
00AA51 Cham digit one
00AA52 Cham digit two
00AA53 Cham digit three
00AA54 Cham digit four
00AA55 Cham digit five
00AA56 Cham digit six
00AA57 Cham digit seven
00AA58 Cham digit eight
00AA59 Cham digit nine
00AA5C Cham punctuation spiral
00AA5D Cham punctuation danda
00AA5E Cham punctuation double danda
00AA5F Cham punctuation triple danda
00AA60 Myanmar letter khamti ga
00AA61 Myanmar letter khamti ca
00AA62 Myanmar letter khamti cha
00AA63 Myanmar letter khamti ja
00AA64 Myanmar letter khamti jha
00AA65 Myanmar letter khamti nya
00AA66 Myanmar letter khamti tta
00AA67 Myanmar letter khamti ttha
00AA68 Myanmar letter khamti dda
00AA69 Myanmar letter khamti ddha
00AA6A Myanmar letter khamti dha
00AA6B Myanmar letter khamti na
00AA6C Myanmar letter khamti sa
00AA6D Myanmar letter khamti ha
00AA6E Myanmar letter khamti hha
00AA6F Myanmar letter khamti fa
00AA70 Myanmar modifier letter khamti reduplication
00AA71 Myanmar letter khamti xa
00AA72 Myanmar letter khamti za
00AA73 Myanmar letter khamti ra
00AA74 Myanmar logogram khamti oay
00AA75 Myanmar logogram khamti qn
00AA76 Myanmar logogram khamti hm
00AA77 Myanmar symbol aiton exclamation
00AA78 Myanmar symbol aiton one
00AA79 Myanmar symbol aiton two
00AA7A Myanmar letter aiton ra
00AA7B Myanmar sign pao karen tone
00AA7C Myanmar sign tai laing tone-2
00AA7D Myanmar sign tai laing tone-5
00AA7E Myanmar letter shwe palaung cha
00AA7F Myanmar letter shwe palaung sha
00AA80 Tai viet letter low ko
00AA81 Tai viet letter high ko
00AA82 Tai viet letter low kho
00AA83 Tai viet letter high kho
00AA84 Tai viet letter low khho
00AA85 Tai viet letter high khho
00AA86 Tai viet letter low go
00AA87 Tai viet letter high go
00AA88 Tai viet letter low ngo
00AA89 Tai viet letter high ngo
00AA8A Tai viet letter low co
00AA8B Tai viet letter high co
00AA8C Tai viet letter low cho
00AA8D Tai viet letter high cho
00AA8E Tai viet letter low so
00AA8F Tai viet letter high so
00AA90 Tai viet letter low nyo
00AA91 Tai viet letter high nyo
00AA92 Tai viet letter low do
00AA93 Tai viet letter high do
00AA94 Tai viet letter low to
00AA95 Tai viet letter high to
00AA96 Tai viet letter low tho
00AA97 Tai viet letter high tho
00AA98 Tai viet letter low no
00AA99 Tai viet letter high no
00AA9A Tai viet letter low bo
00AA9B Tai viet letter high bo
00AA9C Tai viet letter low po
00AA9D Tai viet letter high po
00AA9E Tai viet letter low pho
00AA9F Tai viet letter high pho
00AAA0 Tai viet letter low fo
00AAA1 Tai viet letter high fo
00AAA2 Tai viet letter low mo
00AAA3 Tai viet letter high mo
00AAA4 Tai viet letter low yo
00AAA5 Tai viet letter high yo
00AAA6 Tai viet letter low ro
00AAA7 Tai viet letter high ro
00AAA8 Tai viet letter low lo
00AAA9 Tai viet letter high lo
00AAAA Tai viet letter low vo
00AAAB Tai viet letter high vo
00AAAC Tai viet letter low ho
00AAAD Tai viet letter high ho
00AAAE Tai viet letter low o
00AAAF Tai viet letter high o
00AAB0 Tai viet mai kang
00AAB1 Tai viet vowel aa
00AAB2 Tai viet vowel i
00AAB3 Tai viet vowel ue
00AAB4 Tai viet vowel u
00AAB5 Tai viet vowel e
00AAB6 Tai viet vowel o
00AAB7 Tai viet mai khit
00AAB8 Tai viet vowel ia
00AAB9 Tai viet vowel uea
00AABA Tai viet vowel ua
00AABB Tai viet vowel aue
00AABC Tai viet vowel ay
00AABD Tai viet vowel an
00AABE Tai viet vowel am
00AABF Tai viet tone mai ek
00AAC0 Tai viet tone mai nueng
00AAC1 Tai viet tone mai tho
00AAC2 Tai viet tone mai song
00AADB Tai viet symbol kon
00AADC Tai viet symbol nueng
00AADD Tai viet symbol sam
00AADE Tai viet symbol ho hoi
00AADF Tai viet symbol koi koi
00AAE0 Meetei mayek letter e
00AAE1 Meetei mayek letter o
00AAE2 Meetei mayek letter cha
00AAE3 Meetei mayek letter nya
00AAE4 Meetei mayek letter tta
00AAE5 Meetei mayek letter ttha
00AAE6 Meetei mayek letter dda
00AAE7 Meetei mayek letter ddha
00AAE8 Meetei mayek letter nna
00AAE9 Meetei mayek letter sha
00AAEA Meetei mayek letter ssa
00AAEB Meetei mayek vowel sign ii
00AAEC Meetei mayek vowel sign uu
00AAED Meetei mayek vowel sign aai
00AAEE Meetei mayek vowel sign au
00AAEF Meetei mayek vowel sign aau
00AAF0 Meetei mayek cheikhan
00AAF1 Meetei mayek ahang khudam
00AAF2 Meetei mayek anji
00AAF3 Meetei mayek syllable repetition mark
00AAF4 Meetei mayek word repetition mark
00AAF5 Meetei mayek vowel sign visarga
00AAF6 Meetei mayek virama
00AB01 Ethiopic syllable tthu
00AB02 Ethiopic syllable tthi
00AB03 Ethiopic syllable tthaa
00AB04 Ethiopic syllable tthee
00AB05 Ethiopic syllable tthe
00AB06 Ethiopic syllable ttho
00AB09 Ethiopic syllable ddhu
00AB0A Ethiopic syllable ddhi
00AB0B Ethiopic syllable ddhaa
00AB0C Ethiopic syllable ddhee
00AB0D Ethiopic syllable ddhe
00AB0E Ethiopic syllable ddho
00AB11 Ethiopic syllable dzu
00AB12 Ethiopic syllable dzi
00AB13 Ethiopic syllable dzaa
00AB14 Ethiopic syllable dzee
00AB15 Ethiopic syllable dze
00AB16 Ethiopic syllable dzo
00AB20 Ethiopic syllable cchha
00AB21 Ethiopic syllable cchhu
00AB22 Ethiopic syllable cchhi
00AB23 Ethiopic syllable cchhaa
00AB24 Ethiopic syllable cchhee
00AB25 Ethiopic syllable cchhe
00AB26 Ethiopic syllable cchho
00AB28 Ethiopic syllable bba
00AB29 Ethiopic syllable bbu
00AB2A Ethiopic syllable bbi
00AB2B Ethiopic syllable bbaa
00AB2C Ethiopic syllable bbee
00AB2D Ethiopic syllable bbe
00AB2E Ethiopic syllable bbo
00AB30 Latin small letter barred alpha
00AB31 Latin small letter a reversed-schwa
00AB32 Latin small letter blackletter e
00AB33 Latin small letter barred e
00AB34 Latin small letter e with flourish
00AB35 Latin small letter lenis f
00AB36 Latin small letter script g with crossed-tail
00AB37 Latin small letter l with inverted lazy s
00AB38 Latin small letter l with double middle tilde
00AB39 Latin small letter l with middle ring
00AB3A Latin small letter m with crossed-tail
00AB3B Latin small letter n with crossed-tail
00AB3C Latin small letter eng with crossed-tail
00AB3D Latin small letter blackletter o
00AB3E Latin small letter blackletter o with stroke
00AB3F Latin small letter open o with stroke
00AB40 Latin small letter inverted oe
00AB41 Latin small letter turned oe with stroke
00AB42 Latin small letter turned oe with horizontal stroke
00AB43 Latin small letter turned o open-o
00AB44 Latin small letter turned o open-o with stroke
00AB45 Latin small letter stirrup r
00AB46 Latin letter small capital r with right leg
00AB47 Latin small letter r without handle
00AB48 Latin small letter double r
00AB49 Latin small letter r with crossed-tail
00AB4A Latin small letter double r with crossed-tail
00AB4B Latin small letter script r
00AB4C Latin small letter script r with ring
00AB4D Latin small letter baseline esh
00AB4E Latin small letter u with short right leg
00AB4F Latin small letter u bar with short right leg
00AB50 Latin small letter ui
00AB51 Latin small letter turned ui
00AB52 Latin small letter u with left hook
00AB53 Latin small letter chi
00AB54 Latin small letter chi with low right ring
00AB55 Latin small letter chi with low left serif
00AB56 Latin small letter x with low right ring
00AB57 Latin small letter x with long left leg
00AB58 Latin small letter x with long left leg and low right ring
00AB59 Latin small letter x with long left leg with serif
00AB5A Latin small letter y with short right leg
00AB5B Modifier breve with inverted breve
00AB5C Modifier letter small heng
00AB5D Modifier letter small l with inverted lazy s
00AB5E Modifier letter small l with middle tilde
00AB5F Modifier letter small u with left hook
00AB60 Latin small letter sakha yat
00AB61 Latin small letter iotified e
00AB62 Latin small letter open oe
00AB63 Latin small letter uo
00AB64 Latin small letter inverted alpha
00AB65 Greek letter small capital omega
00AB66 Latin small letter dz digraph with retroflex hook
00AB67 Latin small letter ts digraph with retroflex hook
00AB68 Latin small letter turned r with middle tilde
00AB69 Modifier letter small turned w
00AB6A Modifier letter left tack
00AB6B Modifier letter right tack
00AB70 Cherokee small letter a
00AB71 Cherokee small letter e
00AB72 Cherokee small letter i
00AB73 Cherokee small letter o
00AB74 Cherokee small letter u
00AB75 Cherokee small letter v
00AB76 Cherokee small letter ga
00AB77 Cherokee small letter ka
00AB78 Cherokee small letter ge
00AB79 Cherokee small letter gi
00AB7A Cherokee small letter go
00AB7B Cherokee small letter gu
00AB7C Cherokee small letter gv
00AB7D Cherokee small letter ha
00AB7E Cherokee small letter he
00AB7F Cherokee small letter hi
00AB80 Cherokee small letter ho
00AB81 Cherokee small letter hu
00AB82 Cherokee small letter hv
00AB83 Cherokee small letter la
00AB84 Cherokee small letter le
00AB85 Cherokee small letter li
00AB86 Cherokee small letter lo
00AB87 Cherokee small letter lu
00AB88 Cherokee small letter lv
00AB89 Cherokee small letter ma
00AB8A Cherokee small letter me
";

pub const NAMES_35: &'static str = "00AB8B Cherokee small letter mi
00AB8C Cherokee small letter mo
00AB8D Cherokee small letter mu
00AB8E Cherokee small letter na
00AB8F Cherokee small letter hna
00AB90 Cherokee small letter nah
00AB91 Cherokee small letter ne
00AB92 Cherokee small letter ni
00AB93 Cherokee small letter no
00AB94 Cherokee small letter nu
00AB95 Cherokee small letter nv
00AB96 Cherokee small letter qua
00AB97 Cherokee small letter que
00AB98 Cherokee small letter qui
00AB99 Cherokee small letter quo
00AB9A Cherokee small letter quu
00AB9B Cherokee small letter quv
00AB9C Cherokee small letter sa
00AB9D Cherokee small letter s
00AB9E Cherokee small letter se
00AB9F Cherokee small letter si
00ABA0 Cherokee small letter so
00ABA1 Cherokee small letter su
00ABA2 Cherokee small letter sv
00ABA3 Cherokee small letter da
00ABA4 Cherokee small letter ta
00ABA5 Cherokee small letter de
00ABA6 Cherokee small letter te
00ABA7 Cherokee small letter di
00ABA8 Cherokee small letter ti
00ABA9 Cherokee small letter do
00ABAA Cherokee small letter du
00ABAB Cherokee small letter dv
00ABAC Cherokee small letter dla
00ABAD Cherokee small letter tla
00ABAE Cherokee small letter tle
00ABAF Cherokee small letter tli
00ABB0 Cherokee small letter tlo
00ABB1 Cherokee small letter tlu
00ABB2 Cherokee small letter tlv
00ABB3 Cherokee small letter tsa
00ABB4 Cherokee small letter tse
00ABB5 Cherokee small letter tsi
00ABB6 Cherokee small letter tso
00ABB7 Cherokee small letter tsu
00ABB8 Cherokee small letter tsv
00ABB9 Cherokee small letter wa
00ABBA Cherokee small letter we
00ABBB Cherokee small letter wi
00ABBC Cherokee small letter wo
00ABBD Cherokee small letter wu
00ABBE Cherokee small letter wv
00ABBF Cherokee small letter ya
00ABC0 Meetei mayek letter kok
00ABC1 Meetei mayek letter sam
00ABC2 Meetei mayek letter lai
00ABC3 Meetei mayek letter mit
00ABC4 Meetei mayek letter pa
00ABC5 Meetei mayek letter na
00ABC6 Meetei mayek letter chil
00ABC7 Meetei mayek letter til
00ABC8 Meetei mayek letter khou
00ABC9 Meetei mayek letter ngou
00ABCA Meetei mayek letter thou
00ABCB Meetei mayek letter wai
00ABCC Meetei mayek letter yang
00ABCD Meetei mayek letter huk
00ABCE Meetei mayek letter un
00ABCF Meetei mayek letter i
00ABD0 Meetei mayek letter pham
00ABD1 Meetei mayek letter atiya
00ABD2 Meetei mayek letter gok
00ABD3 Meetei mayek letter jham
00ABD4 Meetei mayek letter rai
00ABD5 Meetei mayek letter ba
00ABD6 Meetei mayek letter jil
00ABD7 Meetei mayek letter dil
00ABD8 Meetei mayek letter ghou
00ABD9 Meetei mayek letter dhou
00ABDA Meetei mayek letter bham
00ABDB Meetei mayek letter kok lonsum
00ABDC Meetei mayek letter lai lonsum
00ABDD Meetei mayek letter mit lonsum
00ABDE Meetei mayek letter pa lonsum
00ABDF Meetei mayek letter na lonsum
00ABE0 Meetei mayek letter til lonsum
00ABE1 Meetei mayek letter ngou lonsum
00ABE2 Meetei mayek letter i lonsum
00ABE3 Meetei mayek vowel sign onap
00ABE4 Meetei mayek vowel sign inap
00ABE5 Meetei mayek vowel sign anap
00ABE6 Meetei mayek vowel sign yenap
00ABE7 Meetei mayek vowel sign sounap
00ABE8 Meetei mayek vowel sign unap
00ABE9 Meetei mayek vowel sign cheinap
00ABEA Meetei mayek vowel sign nung
00ABEB Meetei mayek cheikhei
00ABEC Meetei mayek lum iyek
00ABED Meetei mayek apun iyek
00ABF0 Meetei mayek digit zero
00ABF1 Meetei mayek digit one
00ABF2 Meetei mayek digit two
00ABF3 Meetei mayek digit three
00ABF4 Meetei mayek digit four
00ABF5 Meetei mayek digit five
00ABF6 Meetei mayek digit six
00ABF7 Meetei mayek digit seven
00ABF8 Meetei mayek digit eight
00ABF9 Meetei mayek digit nine
00D7B0 Hangul jungseong o-yeo
00D7B1 Hangul jungseong o-o-i
00D7B2 Hangul jungseong yo-a
00D7B3 Hangul jungseong yo-ae
00D7B4 Hangul jungseong yo-eo
00D7B5 Hangul jungseong u-yeo
00D7B6 Hangul jungseong u-i-i
00D7B7 Hangul jungseong yu-ae
00D7B8 Hangul jungseong yu-o
00D7B9 Hangul jungseong eu-a
00D7BA Hangul jungseong eu-eo
00D7BB Hangul jungseong eu-e
00D7BC Hangul jungseong eu-o
00D7BD Hangul jungseong i-ya-o
00D7BE Hangul jungseong i-yae
00D7BF Hangul jungseong i-yeo
00D7C0 Hangul jungseong i-ye
00D7C1 Hangul jungseong i-o-i
00D7C2 Hangul jungseong i-yo
00D7C3 Hangul jungseong i-yu
00D7C4 Hangul jungseong i-i
00D7C5 Hangul jungseong araea-a
00D7C6 Hangul jungseong araea-e
00D7CB Hangul jongseong nieun-rieul
00D7CC Hangul jongseong nieun-chieuch
00D7CD Hangul jongseong ssangtikeut
00D7CE Hangul jongseong ssangtikeut-pieup
00D7CF Hangul jongseong tikeut-pieup
00D7D0 Hangul jongseong tikeut-sios
00D7D1 Hangul jongseong tikeut-sios-kiyeok
00D7D2 Hangul jongseong tikeut-cieuc
00D7D3 Hangul jongseong tikeut-chieuch
00D7D4 Hangul jongseong tikeut-thieuth
00D7D5 Hangul jongseong rieul-ssangkiyeok
00D7D6 Hangul jongseong rieul-kiyeok-hieuh
00D7D7 Hangul jongseong ssangrieul-khieukh
00D7D8 Hangul jongseong rieul-mieum-hieuh
00D7D9 Hangul jongseong rieul-pieup-tikeut
00D7DA Hangul jongseong rieul-pieup-phieuph
00D7DB Hangul jongseong rieul-yesieung
00D7DC Hangul jongseong rieul-yeorinhieuh-hieuh
00D7DD Hangul jongseong kapyeounrieul
00D7DE Hangul jongseong mieum-nieun
00D7DF Hangul jongseong mieum-ssangnieun
00D7E0 Hangul jongseong ssangmieum
00D7E1 Hangul jongseong mieum-pieup-sios
00D7E2 Hangul jongseong mieum-cieuc
00D7E3 Hangul jongseong pieup-tikeut
00D7E4 Hangul jongseong pieup-rieul-phieuph
00D7E5 Hangul jongseong pieup-mieum
00D7E6 Hangul jongseong ssangpieup
00D7E7 Hangul jongseong pieup-sios-tikeut
00D7E8 Hangul jongseong pieup-cieuc
00D7E9 Hangul jongseong pieup-chieuch
00D7EA Hangul jongseong sios-mieum
00D7EB Hangul jongseong sios-kapyeounpieup
00D7EC Hangul jongseong ssangsios-kiyeok
00D7ED Hangul jongseong ssangsios-tikeut
00D7EE Hangul jongseong sios-pansios
00D7EF Hangul jongseong sios-cieuc
00D7F0 Hangul jongseong sios-chieuch
00D7F1 Hangul jongseong sios-thieuth
00D7F2 Hangul jongseong sios-hieuh
00D7F3 Hangul jongseong pansios-pieup
00D7F4 Hangul jongseong pansios-kapyeounpieup
00D7F5 Hangul jongseong yesieung-mieum
00D7F6 Hangul jongseong yesieung-hieuh
00D7F7 Hangul jongseong cieuc-pieup
00D7F8 Hangul jongseong cieuc-ssangpieup
00D7F9 Hangul jongseong ssangcieuc
00D7FA Hangul jongseong phieuph-sios
00D7FB Hangul jongseong phieuph-thieuth
00F900 Cjk compatibility ideograph-f900
00F901 Cjk compatibility ideograph-f901
00F902 Cjk compatibility ideograph-f902
00F903 Cjk compatibility ideograph-f903
00F904 Cjk compatibility ideograph-f904
00F905 Cjk compatibility ideograph-f905
00F906 Cjk compatibility ideograph-f906
00F907 Cjk compatibility ideograph-f907
00F908 Cjk compatibility ideograph-f908
00F909 Cjk compatibility ideograph-f909
00F90A Cjk compatibility ideograph-f90a
00F90B Cjk compatibility ideograph-f90b
00F90C Cjk compatibility ideograph-f90c
00F90D Cjk compatibility ideograph-f90d
00F90E Cjk compatibility ideograph-f90e
00F90F Cjk compatibility ideograph-f90f
00F910 Cjk compatibility ideograph-f910
00F911 Cjk compatibility ideograph-f911
00F912 Cjk compatibility ideograph-f912
00F913 Cjk compatibility ideograph-f913
00F914 Cjk compatibility ideograph-f914
00F915 Cjk compatibility ideograph-f915
00F916 Cjk compatibility ideograph-f916
00F917 Cjk compatibility ideograph-f917
00F918 Cjk compatibility ideograph-f918
00F919 Cjk compatibility ideograph-f919
00F91A Cjk compatibility ideograph-f91a
00F91B Cjk compatibility ideograph-f91b
00F91C Cjk compatibility ideograph-f91c
00F91D Cjk compatibility ideograph-f91d
00F91E Cjk compatibility ideograph-f91e
00F91F Cjk compatibility ideograph-f91f
00F920 Cjk compatibility ideograph-f920
00F921 Cjk compatibility ideograph-f921
00F922 Cjk compatibility ideograph-f922
00F923 Cjk compatibility ideograph-f923
00F924 Cjk compatibility ideograph-f924
00F925 Cjk compatibility ideograph-f925
00F926 Cjk compatibility ideograph-f926
00F927 Cjk compatibility ideograph-f927
00F928 Cjk compatibility ideograph-f928
00F929 Cjk compatibility ideograph-f929
00F92A Cjk compatibility ideograph-f92a
00F92B Cjk compatibility ideograph-f92b
00F92C Cjk compatibility ideograph-f92c
00F92D Cjk compatibility ideograph-f92d
00F92E Cjk compatibility ideograph-f92e
00F92F Cjk compatibility ideograph-f92f
00F930 Cjk compatibility ideograph-f930
00F931 Cjk compatibility ideograph-f931
00F932 Cjk compatibility ideograph-f932
00F933 Cjk compatibility ideograph-f933
00F934 Cjk compatibility ideograph-f934
00F935 Cjk compatibility ideograph-f935
00F936 Cjk compatibility ideograph-f936
00F937 Cjk compatibility ideograph-f937
00F938 Cjk compatibility ideograph-f938
00F939 Cjk compatibility ideograph-f939
00F93A Cjk compatibility ideograph-f93a
00F93B Cjk compatibility ideograph-f93b
00F93C Cjk compatibility ideograph-f93c
00F93D Cjk compatibility ideograph-f93d
00F93E Cjk compatibility ideograph-f93e
00F93F Cjk compatibility ideograph-f93f
00F940 Cjk compatibility ideograph-f940
00F941 Cjk compatibility ideograph-f941
00F942 Cjk compatibility ideograph-f942
00F943 Cjk compatibility ideograph-f943
00F944 Cjk compatibility ideograph-f944
00F945 Cjk compatibility ideograph-f945
00F946 Cjk compatibility ideograph-f946
00F947 Cjk compatibility ideograph-f947
00F948 Cjk compatibility ideograph-f948
00F949 Cjk compatibility ideograph-f949
00F94A Cjk compatibility ideograph-f94a
00F94B Cjk compatibility ideograph-f94b
00F94C Cjk compatibility ideograph-f94c
00F94D Cjk compatibility ideograph-f94d
00F94E Cjk compatibility ideograph-f94e
00F94F Cjk compatibility ideograph-f94f
00F950 Cjk compatibility ideograph-f950
00F951 Cjk compatibility ideograph-f951
00F952 Cjk compatibility ideograph-f952
00F953 Cjk compatibility ideograph-f953
00F954 Cjk compatibility ideograph-f954
00F955 Cjk compatibility ideograph-f955
00F956 Cjk compatibility ideograph-f956
00F957 Cjk compatibility ideograph-f957
00F958 Cjk compatibility ideograph-f958
00F959 Cjk compatibility ideograph-f959
00F95A Cjk compatibility ideograph-f95a
00F95B Cjk compatibility ideograph-f95b
00F95C Cjk compatibility ideograph-f95c
00F95D Cjk compatibility ideograph-f95d
00F95E Cjk compatibility ideograph-f95e
00F95F Cjk compatibility ideograph-f95f
00F960 Cjk compatibility ideograph-f960
00F961 Cjk compatibility ideograph-f961
00F962 Cjk compatibility ideograph-f962
00F963 Cjk compatibility ideograph-f963
00F964 Cjk compatibility ideograph-f964
00F965 Cjk compatibility ideograph-f965
00F966 Cjk compatibility ideograph-f966
00F967 Cjk compatibility ideograph-f967
00F968 Cjk compatibility ideograph-f968
00F969 Cjk compatibility ideograph-f969
00F96A Cjk compatibility ideograph-f96a
00F96B Cjk compatibility ideograph-f96b
00F96C Cjk compatibility ideograph-f96c
00F96D Cjk compatibility ideograph-f96d
00F96E Cjk compatibility ideograph-f96e
00F96F Cjk compatibility ideograph-f96f
00F970 Cjk compatibility ideograph-f970
00F971 Cjk compatibility ideograph-f971
00F972 Cjk compatibility ideograph-f972
00F973 Cjk compatibility ideograph-f973
00F974 Cjk compatibility ideograph-f974
00F975 Cjk compatibility ideograph-f975
00F976 Cjk compatibility ideograph-f976
00F977 Cjk compatibility ideograph-f977
00F978 Cjk compatibility ideograph-f978
00F979 Cjk compatibility ideograph-f979
00F97A Cjk compatibility ideograph-f97a
00F97B Cjk compatibility ideograph-f97b
00F97C Cjk compatibility ideograph-f97c
00F97D Cjk compatibility ideograph-f97d
00F97E Cjk compatibility ideograph-f97e
00F97F Cjk compatibility ideograph-f97f
00F980 Cjk compatibility ideograph-f980
00F981 Cjk compatibility ideograph-f981
00F982 Cjk compatibility ideograph-f982
00F983 Cjk compatibility ideograph-f983
00F984 Cjk compatibility ideograph-f984
00F985 Cjk compatibility ideograph-f985
00F986 Cjk compatibility ideograph-f986
00F987 Cjk compatibility ideograph-f987
00F988 Cjk compatibility ideograph-f988
00F989 Cjk compatibility ideograph-f989
00F98A Cjk compatibility ideograph-f98a
00F98B Cjk compatibility ideograph-f98b
00F98C Cjk compatibility ideograph-f98c
00F98D Cjk compatibility ideograph-f98d
00F98E Cjk compatibility ideograph-f98e
00F98F Cjk compatibility ideograph-f98f
00F990 Cjk compatibility ideograph-f990
00F991 Cjk compatibility ideograph-f991
00F992 Cjk compatibility ideograph-f992
00F993 Cjk compatibility ideograph-f993
00F994 Cjk compatibility ideograph-f994
00F995 Cjk compatibility ideograph-f995
00F996 Cjk compatibility ideograph-f996
00F997 Cjk compatibility ideograph-f997
00F998 Cjk compatibility ideograph-f998
00F999 Cjk compatibility ideograph-f999
00F99A Cjk compatibility ideograph-f99a
00F99B Cjk compatibility ideograph-f99b
00F99C Cjk compatibility ideograph-f99c
00F99D Cjk compatibility ideograph-f99d
00F99E Cjk compatibility ideograph-f99e
00F99F Cjk compatibility ideograph-f99f
00F9A0 Cjk compatibility ideograph-f9a0
00F9A1 Cjk compatibility ideograph-f9a1
00F9A2 Cjk compatibility ideograph-f9a2
00F9A3 Cjk compatibility ideograph-f9a3
00F9A4 Cjk compatibility ideograph-f9a4
00F9A5 Cjk compatibility ideograph-f9a5
00F9A6 Cjk compatibility ideograph-f9a6
00F9A7 Cjk compatibility ideograph-f9a7
00F9A8 Cjk compatibility ideograph-f9a8
00F9A9 Cjk compatibility ideograph-f9a9
00F9AA Cjk compatibility ideograph-f9aa
00F9AB Cjk compatibility ideograph-f9ab
00F9AC Cjk compatibility ideograph-f9ac
00F9AD Cjk compatibility ideograph-f9ad
00F9AE Cjk compatibility ideograph-f9ae
00F9AF Cjk compatibility ideograph-f9af
00F9B0 Cjk compatibility ideograph-f9b0
00F9B1 Cjk compatibility ideograph-f9b1
00F9B2 Cjk compatibility ideograph-f9b2
00F9B3 Cjk compatibility ideograph-f9b3
00F9B4 Cjk compatibility ideograph-f9b4
00F9B5 Cjk compatibility ideograph-f9b5
00F9B6 Cjk compatibility ideograph-f9b6
00F9B7 Cjk compatibility ideograph-f9b7
00F9B8 Cjk compatibility ideograph-f9b8
00F9B9 Cjk compatibility ideograph-f9b9
00F9BA Cjk compatibility ideograph-f9ba
00F9BB Cjk compatibility ideograph-f9bb
00F9BC Cjk compatibility ideograph-f9bc
00F9BD Cjk compatibility ideograph-f9bd
00F9BE Cjk compatibility ideograph-f9be
00F9BF Cjk compatibility ideograph-f9bf
00F9C0 Cjk compatibility ideograph-f9c0
00F9C1 Cjk compatibility ideograph-f9c1
00F9C2 Cjk compatibility ideograph-f9c2
00F9C3 Cjk compatibility ideograph-f9c3
";

pub const NAMES_36: &'static str = "00F9C4 Cjk compatibility ideograph-f9c4
00F9C5 Cjk compatibility ideograph-f9c5
00F9C6 Cjk compatibility ideograph-f9c6
00F9C7 Cjk compatibility ideograph-f9c7
00F9C8 Cjk compatibility ideograph-f9c8
00F9C9 Cjk compatibility ideograph-f9c9
00F9CA Cjk compatibility ideograph-f9ca
00F9CB Cjk compatibility ideograph-f9cb
00F9CC Cjk compatibility ideograph-f9cc
00F9CD Cjk compatibility ideograph-f9cd
00F9CE Cjk compatibility ideograph-f9ce
00F9CF Cjk compatibility ideograph-f9cf
00F9D0 Cjk compatibility ideograph-f9d0
00F9D1 Cjk compatibility ideograph-f9d1
00F9D2 Cjk compatibility ideograph-f9d2
00F9D3 Cjk compatibility ideograph-f9d3
00F9D4 Cjk compatibility ideograph-f9d4
00F9D5 Cjk compatibility ideograph-f9d5
00F9D6 Cjk compatibility ideograph-f9d6
00F9D7 Cjk compatibility ideograph-f9d7
00F9D8 Cjk compatibility ideograph-f9d8
00F9D9 Cjk compatibility ideograph-f9d9
00F9DA Cjk compatibility ideograph-f9da
00F9DB Cjk compatibility ideograph-f9db
00F9DC Cjk compatibility ideograph-f9dc
00F9DD Cjk compatibility ideograph-f9dd
00F9DE Cjk compatibility ideograph-f9de
00F9DF Cjk compatibility ideograph-f9df
00F9E0 Cjk compatibility ideograph-f9e0
00F9E1 Cjk compatibility ideograph-f9e1
00F9E2 Cjk compatibility ideograph-f9e2
00F9E3 Cjk compatibility ideograph-f9e3
00F9E4 Cjk compatibility ideograph-f9e4
00F9E5 Cjk compatibility ideograph-f9e5
00F9E6 Cjk compatibility ideograph-f9e6
00F9E7 Cjk compatibility ideograph-f9e7
00F9E8 Cjk compatibility ideograph-f9e8
00F9E9 Cjk compatibility ideograph-f9e9
00F9EA Cjk compatibility ideograph-f9ea
00F9EB Cjk compatibility ideograph-f9eb
00F9EC Cjk compatibility ideograph-f9ec
00F9ED Cjk compatibility ideograph-f9ed
00F9EE Cjk compatibility ideograph-f9ee
00F9EF Cjk compatibility ideograph-f9ef
00F9F0 Cjk compatibility ideograph-f9f0
00F9F1 Cjk compatibility ideograph-f9f1
00F9F2 Cjk compatibility ideograph-f9f2
00F9F3 Cjk compatibility ideograph-f9f3
00F9F4 Cjk compatibility ideograph-f9f4
00F9F5 Cjk compatibility ideograph-f9f5
00F9F6 Cjk compatibility ideograph-f9f6
00F9F7 Cjk compatibility ideograph-f9f7
00F9F8 Cjk compatibility ideograph-f9f8
00F9F9 Cjk compatibility ideograph-f9f9
00F9FA Cjk compatibility ideograph-f9fa
00F9FB Cjk compatibility ideograph-f9fb
00F9FC Cjk compatibility ideograph-f9fc
00F9FD Cjk compatibility ideograph-f9fd
00F9FE Cjk compatibility ideograph-f9fe
00F9FF Cjk compatibility ideograph-f9ff
00FA00 Cjk compatibility ideograph-fa00
00FA01 Cjk compatibility ideograph-fa01
00FA02 Cjk compatibility ideograph-fa02
00FA03 Cjk compatibility ideograph-fa03
00FA04 Cjk compatibility ideograph-fa04
00FA05 Cjk compatibility ideograph-fa05
00FA06 Cjk compatibility ideograph-fa06
00FA07 Cjk compatibility ideograph-fa07
00FA08 Cjk compatibility ideograph-fa08
00FA09 Cjk compatibility ideograph-fa09
00FA0A Cjk compatibility ideograph-fa0a
00FA0B Cjk compatibility ideograph-fa0b
00FA0C Cjk compatibility ideograph-fa0c
00FA0D Cjk compatibility ideograph-fa0d
00FA0E Cjk compatibility ideograph-fa0e
00FA0F Cjk compatibility ideograph-fa0f
00FA10 Cjk compatibility ideograph-fa10
00FA11 Cjk compatibility ideograph-fa11
00FA12 Cjk compatibility ideograph-fa12
00FA13 Cjk compatibility ideograph-fa13
00FA14 Cjk compatibility ideograph-fa14
00FA15 Cjk compatibility ideograph-fa15
00FA16 Cjk compatibility ideograph-fa16
00FA17 Cjk compatibility ideograph-fa17
00FA18 Cjk compatibility ideograph-fa18
00FA19 Cjk compatibility ideograph-fa19
00FA1A Cjk compatibility ideograph-fa1a
00FA1B Cjk compatibility ideograph-fa1b
00FA1C Cjk compatibility ideograph-fa1c
00FA1D Cjk compatibility ideograph-fa1d
00FA1E Cjk compatibility ideograph-fa1e
00FA1F Cjk compatibility ideograph-fa1f
00FA20 Cjk compatibility ideograph-fa20
00FA21 Cjk compatibility ideograph-fa21
00FA22 Cjk compatibility ideograph-fa22
00FA23 Cjk compatibility ideograph-fa23
00FA24 Cjk compatibility ideograph-fa24
00FA25 Cjk compatibility ideograph-fa25
00FA26 Cjk compatibility ideograph-fa26
00FA27 Cjk compatibility ideograph-fa27
00FA28 Cjk compatibility ideograph-fa28
00FA29 Cjk compatibility ideograph-fa29
00FA2A Cjk compatibility ideograph-fa2a
00FA2B Cjk compatibility ideograph-fa2b
00FA2C Cjk compatibility ideograph-fa2c
00FA2D Cjk compatibility ideograph-fa2d
00FA2E Cjk compatibility ideograph-fa2e
00FA2F Cjk compatibility ideograph-fa2f
00FA30 Cjk compatibility ideograph-fa30
00FA31 Cjk compatibility ideograph-fa31
00FA32 Cjk compatibility ideograph-fa32
00FA33 Cjk compatibility ideograph-fa33
00FA34 Cjk compatibility ideograph-fa34
00FA35 Cjk compatibility ideograph-fa35
00FA36 Cjk compatibility ideograph-fa36
00FA37 Cjk compatibility ideograph-fa37
00FA38 Cjk compatibility ideograph-fa38
00FA39 Cjk compatibility ideograph-fa39
00FA3A Cjk compatibility ideograph-fa3a
00FA3B Cjk compatibility ideograph-fa3b
00FA3C Cjk compatibility ideograph-fa3c
00FA3D Cjk compatibility ideograph-fa3d
00FA3E Cjk compatibility ideograph-fa3e
00FA3F Cjk compatibility ideograph-fa3f
00FA40 Cjk compatibility ideograph-fa40
00FA41 Cjk compatibility ideograph-fa41
00FA42 Cjk compatibility ideograph-fa42
00FA43 Cjk compatibility ideograph-fa43
00FA44 Cjk compatibility ideograph-fa44
00FA45 Cjk compatibility ideograph-fa45
00FA46 Cjk compatibility ideograph-fa46
00FA47 Cjk compatibility ideograph-fa47
00FA48 Cjk compatibility ideograph-fa48
00FA49 Cjk compatibility ideograph-fa49
00FA4A Cjk compatibility ideograph-fa4a
00FA4B Cjk compatibility ideograph-fa4b
00FA4C Cjk compatibility ideograph-fa4c
00FA4D Cjk compatibility ideograph-fa4d
00FA4E Cjk compatibility ideograph-fa4e
00FA4F Cjk compatibility ideograph-fa4f
00FA50 Cjk compatibility ideograph-fa50
00FA51 Cjk compatibility ideograph-fa51
00FA52 Cjk compatibility ideograph-fa52
00FA53 Cjk compatibility ideograph-fa53
00FA54 Cjk compatibility ideograph-fa54
00FA55 Cjk compatibility ideograph-fa55
00FA56 Cjk compatibility ideograph-fa56
00FA57 Cjk compatibility ideograph-fa57
00FA58 Cjk compatibility ideograph-fa58
00FA59 Cjk compatibility ideograph-fa59
00FA5A Cjk compatibility ideograph-fa5a
00FA5B Cjk compatibility ideograph-fa5b
00FA5C Cjk compatibility ideograph-fa5c
00FA5D Cjk compatibility ideograph-fa5d
00FA5E Cjk compatibility ideograph-fa5e
00FA5F Cjk compatibility ideograph-fa5f
00FA60 Cjk compatibility ideograph-fa60
00FA61 Cjk compatibility ideograph-fa61
00FA62 Cjk compatibility ideograph-fa62
00FA63 Cjk compatibility ideograph-fa63
00FA64 Cjk compatibility ideograph-fa64
00FA65 Cjk compatibility ideograph-fa65
00FA66 Cjk compatibility ideograph-fa66
00FA67 Cjk compatibility ideograph-fa67
00FA68 Cjk compatibility ideograph-fa68
00FA69 Cjk compatibility ideograph-fa69
00FA6A Cjk compatibility ideograph-fa6a
00FA6B Cjk compatibility ideograph-fa6b
00FA6C Cjk compatibility ideograph-fa6c
00FA6D Cjk compatibility ideograph-fa6d
00FA70 Cjk compatibility ideograph-fa70
00FA71 Cjk compatibility ideograph-fa71
00FA72 Cjk compatibility ideograph-fa72
00FA73 Cjk compatibility ideograph-fa73
00FA74 Cjk compatibility ideograph-fa74
00FA75 Cjk compatibility ideograph-fa75
00FA76 Cjk compatibility ideograph-fa76
00FA77 Cjk compatibility ideograph-fa77
00FA78 Cjk compatibility ideograph-fa78
00FA79 Cjk compatibility ideograph-fa79
00FA7A Cjk compatibility ideograph-fa7a
00FA7B Cjk compatibility ideograph-fa7b
00FA7C Cjk compatibility ideograph-fa7c
00FA7D Cjk compatibility ideograph-fa7d
00FA7E Cjk compatibility ideograph-fa7e
00FA7F Cjk compatibility ideograph-fa7f
00FA80 Cjk compatibility ideograph-fa80
00FA81 Cjk compatibility ideograph-fa81
00FA82 Cjk compatibility ideograph-fa82
00FA83 Cjk compatibility ideograph-fa83
00FA84 Cjk compatibility ideograph-fa84
00FA85 Cjk compatibility ideograph-fa85
00FA86 Cjk compatibility ideograph-fa86
00FA87 Cjk compatibility ideograph-fa87
00FA88 Cjk compatibility ideograph-fa88
00FA89 Cjk compatibility ideograph-fa89
00FA8A Cjk compatibility ideograph-fa8a
00FA8B Cjk compatibility ideograph-fa8b
00FA8C Cjk compatibility ideograph-fa8c
00FA8D Cjk compatibility ideograph-fa8d
00FA8E Cjk compatibility ideograph-fa8e
00FA8F Cjk compatibility ideograph-fa8f
00FA90 Cjk compatibility ideograph-fa90
00FA91 Cjk compatibility ideograph-fa91
00FA92 Cjk compatibility ideograph-fa92
00FA93 Cjk compatibility ideograph-fa93
00FA94 Cjk compatibility ideograph-fa94
00FA95 Cjk compatibility ideograph-fa95
00FA96 Cjk compatibility ideograph-fa96
00FA97 Cjk compatibility ideograph-fa97
00FA98 Cjk compatibility ideograph-fa98
00FA99 Cjk compatibility ideograph-fa99
00FA9A Cjk compatibility ideograph-fa9a
00FA9B Cjk compatibility ideograph-fa9b
00FA9C Cjk compatibility ideograph-fa9c
00FA9D Cjk compatibility ideograph-fa9d
00FA9E Cjk compatibility ideograph-fa9e
00FA9F Cjk compatibility ideograph-fa9f
00FAA0 Cjk compatibility ideograph-faa0
00FAA1 Cjk compatibility ideograph-faa1
00FAA2 Cjk compatibility ideograph-faa2
00FAA3 Cjk compatibility ideograph-faa3
00FAA4 Cjk compatibility ideograph-faa4
00FAA5 Cjk compatibility ideograph-faa5
00FAA6 Cjk compatibility ideograph-faa6
00FAA7 Cjk compatibility ideograph-faa7
00FAA8 Cjk compatibility ideograph-faa8
00FAA9 Cjk compatibility ideograph-faa9
00FAAA Cjk compatibility ideograph-faaa
00FAAB Cjk compatibility ideograph-faab
00FAAC Cjk compatibility ideograph-faac
00FAAD Cjk compatibility ideograph-faad
00FAAE Cjk compatibility ideograph-faae
00FAAF Cjk compatibility ideograph-faaf
00FAB0 Cjk compatibility ideograph-fab0
00FAB1 Cjk compatibility ideograph-fab1
00FAB2 Cjk compatibility ideograph-fab2
00FAB3 Cjk compatibility ideograph-fab3
00FAB4 Cjk compatibility ideograph-fab4
00FAB5 Cjk compatibility ideograph-fab5
00FAB6 Cjk compatibility ideograph-fab6
00FAB7 Cjk compatibility ideograph-fab7
00FAB8 Cjk compatibility ideograph-fab8
00FAB9 Cjk compatibility ideograph-fab9
00FABA Cjk compatibility ideograph-faba
00FABB Cjk compatibility ideograph-fabb
00FABC Cjk compatibility ideograph-fabc
00FABD Cjk compatibility ideograph-fabd
00FABE Cjk compatibility ideograph-fabe
00FABF Cjk compatibility ideograph-fabf
00FAC0 Cjk compatibility ideograph-fac0
00FAC1 Cjk compatibility ideograph-fac1
00FAC2 Cjk compatibility ideograph-fac2
00FAC3 Cjk compatibility ideograph-fac3
00FAC4 Cjk compatibility ideograph-fac4
00FAC5 Cjk compatibility ideograph-fac5
00FAC6 Cjk compatibility ideograph-fac6
00FAC7 Cjk compatibility ideograph-fac7
00FAC8 Cjk compatibility ideograph-fac8
00FAC9 Cjk compatibility ideograph-fac9
00FACA Cjk compatibility ideograph-faca
00FACB Cjk compatibility ideograph-facb
00FACC Cjk compatibility ideograph-facc
00FACD Cjk compatibility ideograph-facd
00FACE Cjk compatibility ideograph-face
00FACF Cjk compatibility ideograph-facf
00FAD0 Cjk compatibility ideograph-fad0
00FAD1 Cjk compatibility ideograph-fad1
00FAD2 Cjk compatibility ideograph-fad2
00FAD3 Cjk compatibility ideograph-fad3
00FAD4 Cjk compatibility ideograph-fad4
00FAD5 Cjk compatibility ideograph-fad5
00FAD6 Cjk compatibility ideograph-fad6
00FAD7 Cjk compatibility ideograph-fad7
00FAD8 Cjk compatibility ideograph-fad8
00FAD9 Cjk compatibility ideograph-fad9
00FB00 Latin small ligature ff
00FB01 Latin small ligature fi
00FB02 Latin small ligature fl
00FB03 Latin small ligature ffi
00FB04 Latin small ligature ffl
00FB05 Latin small ligature long s t
00FB06 Latin small ligature st
00FB13 Armenian small ligature men now
00FB14 Armenian small ligature men ech
00FB15 Armenian small ligature men ini
00FB16 Armenian small ligature vew now
00FB17 Armenian small ligature men xeh
00FB1D Hebrew letter yod with hiriq
00FB1E Hebrew point judeo-spanish varika
00FB1F Hebrew ligature yiddish yod yod patah
00FB20 Hebrew letter alternative ayin
00FB21 Hebrew letter wide alef
00FB22 Hebrew letter wide dalet
00FB23 Hebrew letter wide he
00FB24 Hebrew letter wide kaf
00FB25 Hebrew letter wide lamed
00FB26 Hebrew letter wide final mem
00FB27 Hebrew letter wide resh
00FB28 Hebrew letter wide tav
00FB29 Hebrew letter alternative plus sign
00FB2A Hebrew letter shin with shin dot
00FB2B Hebrew letter shin with sin dot
00FB2C Hebrew letter shin with dagesh and shin dot
00FB2D Hebrew letter shin with dagesh and sin dot
00FB2E Hebrew letter alef with patah
00FB2F Hebrew letter alef with qamats
00FB30 Hebrew letter alef with mapiq
00FB31 Hebrew letter bet with dagesh
00FB32 Hebrew letter gimel with dagesh
00FB33 Hebrew letter dalet with dagesh
00FB34 Hebrew letter he with mapiq
00FB35 Hebrew letter vav with dagesh
00FB36 Hebrew letter zayin with dagesh
00FB38 Hebrew letter tet with dagesh
00FB39 Hebrew letter yod with dagesh
00FB3A Hebrew letter final kaf with dagesh
00FB3B Hebrew letter kaf with dagesh
00FB3C Hebrew letter lamed with dagesh
00FB3E Hebrew letter mem with dagesh
00FB40 Hebrew letter nun with dagesh
00FB41 Hebrew letter samekh with dagesh
00FB43 Hebrew letter final pe with dagesh
00FB44 Hebrew letter pe with dagesh
00FB46 Hebrew letter tsadi with dagesh
00FB47 Hebrew letter qof with dagesh
00FB48 Hebrew letter resh with dagesh
00FB49 Hebrew letter shin with dagesh
00FB4A Hebrew letter tav with dagesh
00FB4B Hebrew letter vav with holam
00FB4C Hebrew letter bet with rafe
00FB4D Hebrew letter kaf with rafe
00FB4E Hebrew letter pe with rafe
00FB4F Hebrew ligature alef lamed
00FB50 Arabic letter alef wasla isolated form
00FB51 Arabic letter alef wasla final form
00FB52 Arabic letter beeh isolated form
00FB53 Arabic letter beeh final form
00FB54 Arabic letter beeh initial form
00FB55 Arabic letter beeh medial form
00FB56 Arabic letter peh isolated form
00FB57 Arabic letter peh final form
00FB58 Arabic letter peh initial form
00FB59 Arabic letter peh medial form
00FB5A Arabic letter beheh isolated form
00FB5B Arabic letter beheh final form
00FB5C Arabic letter beheh initial form
00FB5D Arabic letter beheh medial form
00FB5E Arabic letter tteheh isolated form
00FB5F Arabic letter tteheh final form
00FB60 Arabic letter tteheh initial form
00FB61 Arabic letter tteheh medial form
00FB62 Arabic letter teheh isolated form
00FB63 Arabic letter teheh final form
";

pub const NAMES_37: &'static str = "00FB64 Arabic letter teheh initial form
00FB65 Arabic letter teheh medial form
00FB66 Arabic letter tteh isolated form
00FB67 Arabic letter tteh final form
00FB68 Arabic letter tteh initial form
00FB69 Arabic letter tteh medial form
00FB6A Arabic letter veh isolated form
00FB6B Arabic letter veh final form
00FB6C Arabic letter veh initial form
00FB6D Arabic letter veh medial form
00FB6E Arabic letter peheh isolated form
00FB6F Arabic letter peheh final form
00FB70 Arabic letter peheh initial form
00FB71 Arabic letter peheh medial form
00FB72 Arabic letter dyeh isolated form
00FB73 Arabic letter dyeh final form
00FB74 Arabic letter dyeh initial form
00FB75 Arabic letter dyeh medial form
00FB76 Arabic letter nyeh isolated form
00FB77 Arabic letter nyeh final form
00FB78 Arabic letter nyeh initial form
00FB79 Arabic letter nyeh medial form
00FB7A Arabic letter tcheh isolated form
00FB7B Arabic letter tcheh final form
00FB7C Arabic letter tcheh initial form
00FB7D Arabic letter tcheh medial form
00FB7E Arabic letter tcheheh isolated form
00FB7F Arabic letter tcheheh final form
00FB80 Arabic letter tcheheh initial form
00FB81 Arabic letter tcheheh medial form
00FB82 Arabic letter ddahal isolated form
00FB83 Arabic letter ddahal final form
00FB84 Arabic letter dahal isolated form
00FB85 Arabic letter dahal final form
00FB86 Arabic letter dul isolated form
00FB87 Arabic letter dul final form
00FB88 Arabic letter ddal isolated form
00FB89 Arabic letter ddal final form
00FB8A Arabic letter jeh isolated form
00FB8B Arabic letter jeh final form
00FB8C Arabic letter rreh isolated form
00FB8D Arabic letter rreh final form
00FB8E Arabic letter keheh isolated form
00FB8F Arabic letter keheh final form
00FB90 Arabic letter keheh initial form
00FB91 Arabic letter keheh medial form
00FB92 Arabic letter gaf isolated form
00FB93 Arabic letter gaf final form
00FB94 Arabic letter gaf initial form
00FB95 Arabic letter gaf medial form
00FB96 Arabic letter gueh isolated form
00FB97 Arabic letter gueh final form
00FB98 Arabic letter gueh initial form
00FB99 Arabic letter gueh medial form
00FB9A Arabic letter ngoeh isolated form
00FB9B Arabic letter ngoeh final form
00FB9C Arabic letter ngoeh initial form
00FB9D Arabic letter ngoeh medial form
00FB9E Arabic letter noon ghunna isolated form
00FB9F Arabic letter noon ghunna final form
00FBA0 Arabic letter rnoon isolated form
00FBA1 Arabic letter rnoon final form
00FBA2 Arabic letter rnoon initial form
00FBA3 Arabic letter rnoon medial form
00FBA4 Arabic letter heh with yeh above isolated form
00FBA5 Arabic letter heh with yeh above final form
00FBA6 Arabic letter heh goal isolated form
00FBA7 Arabic letter heh goal final form
00FBA8 Arabic letter heh goal initial form
00FBA9 Arabic letter heh goal medial form
00FBAA Arabic letter heh doachashmee isolated form
00FBAB Arabic letter heh doachashmee final form
00FBAC Arabic letter heh doachashmee initial form
00FBAD Arabic letter heh doachashmee medial form
00FBAE Arabic letter yeh barree isolated form
00FBAF Arabic letter yeh barree final form
00FBB0 Arabic letter yeh barree with hamza above isolated form
00FBB1 Arabic letter yeh barree with hamza above final form
00FBB2 Arabic symbol dot above
00FBB3 Arabic symbol dot below
00FBB4 Arabic symbol two dots above
00FBB5 Arabic symbol two dots below
00FBB6 Arabic symbol three dots above
00FBB7 Arabic symbol three dots below
00FBB8 Arabic symbol three dots pointing downwards above
00FBB9 Arabic symbol three dots pointing downwards below
00FBBA Arabic symbol four dots above
00FBBB Arabic symbol four dots below
00FBBC Arabic symbol double vertical bar below
00FBBD Arabic symbol two dots vertically above
00FBBE Arabic symbol two dots vertically below
00FBBF Arabic symbol ring
00FBC0 Arabic symbol small tah above
00FBC1 Arabic symbol small tah below
00FBC2 Arabic symbol wasla above
00FBD3 Arabic letter ng isolated form
00FBD4 Arabic letter ng final form
00FBD5 Arabic letter ng initial form
00FBD6 Arabic letter ng medial form
00FBD7 Arabic letter u isolated form
00FBD8 Arabic letter u final form
00FBD9 Arabic letter oe isolated form
00FBDA Arabic letter oe final form
00FBDB Arabic letter yu isolated form
00FBDC Arabic letter yu final form
00FBDD Arabic letter u with hamza above isolated form
00FBDE Arabic letter ve isolated form
00FBDF Arabic letter ve final form
00FBE0 Arabic letter kirghiz oe isolated form
00FBE1 Arabic letter kirghiz oe final form
00FBE2 Arabic letter kirghiz yu isolated form
00FBE3 Arabic letter kirghiz yu final form
00FBE4 Arabic letter e isolated form
00FBE5 Arabic letter e final form
00FBE6 Arabic letter e initial form
00FBE7 Arabic letter e medial form
00FBE8 Arabic letter uighur kazakh kirghiz alef maksura initial form
00FBE9 Arabic letter uighur kazakh kirghiz alef maksura medial form
00FBEA Arabic ligature yeh with hamza above with alef isolated form
00FBEB Arabic ligature yeh with hamza above with alef final form
00FBEC Arabic ligature yeh with hamza above with ae isolated form
00FBED Arabic ligature yeh with hamza above with ae final form
00FBEE Arabic ligature yeh with hamza above with waw isolated form
00FBEF Arabic ligature yeh with hamza above with waw final form
00FBF0 Arabic ligature yeh with hamza above with u isolated form
00FBF1 Arabic ligature yeh with hamza above with u final form
00FBF2 Arabic ligature yeh with hamza above with oe isolated form
00FBF3 Arabic ligature yeh with hamza above with oe final form
00FBF4 Arabic ligature yeh with hamza above with yu isolated form
00FBF5 Arabic ligature yeh with hamza above with yu final form
00FBF6 Arabic ligature yeh with hamza above with e isolated form
00FBF7 Arabic ligature yeh with hamza above with e final form
00FBF8 Arabic ligature yeh with hamza above with e initial form
00FBF9 Arabic ligature uighur kirghiz yeh with hamza above with alef maksura isolated form
00FBFA Arabic ligature uighur kirghiz yeh with hamza above with alef maksura final form
00FBFB Arabic ligature uighur kirghiz yeh with hamza above with alef maksura initial form
00FBFC Arabic letter farsi yeh isolated form
00FBFD Arabic letter farsi yeh final form
00FBFE Arabic letter farsi yeh initial form
00FBFF Arabic letter farsi yeh medial form
00FC00 Arabic ligature yeh with hamza above with jeem isolated form
00FC01 Arabic ligature yeh with hamza above with hah isolated form
00FC02 Arabic ligature yeh with hamza above with meem isolated form
00FC03 Arabic ligature yeh with hamza above with alef maksura isolated form
00FC04 Arabic ligature yeh with hamza above with yeh isolated form
00FC05 Arabic ligature beh with jeem isolated form
00FC06 Arabic ligature beh with hah isolated form
00FC07 Arabic ligature beh with khah isolated form
00FC08 Arabic ligature beh with meem isolated form
00FC09 Arabic ligature beh with alef maksura isolated form
00FC0A Arabic ligature beh with yeh isolated form
00FC0B Arabic ligature teh with jeem isolated form
00FC0C Arabic ligature teh with hah isolated form
00FC0D Arabic ligature teh with khah isolated form
00FC0E Arabic ligature teh with meem isolated form
00FC0F Arabic ligature teh with alef maksura isolated form
00FC10 Arabic ligature teh with yeh isolated form
00FC11 Arabic ligature theh with jeem isolated form
00FC12 Arabic ligature theh with meem isolated form
00FC13 Arabic ligature theh with alef maksura isolated form
00FC14 Arabic ligature theh with yeh isolated form
00FC15 Arabic ligature jeem with hah isolated form
00FC16 Arabic ligature jeem with meem isolated form
00FC17 Arabic ligature hah with jeem isolated form
00FC18 Arabic ligature hah with meem isolated form
00FC19 Arabic ligature khah with jeem isolated form
00FC1A Arabic ligature khah with hah isolated form
00FC1B Arabic ligature khah with meem isolated form
00FC1C Arabic ligature seen with jeem isolated form
00FC1D Arabic ligature seen with hah isolated form
00FC1E Arabic ligature seen with khah isolated form
00FC1F Arabic ligature seen with meem isolated form
00FC20 Arabic ligature sad with hah isolated form
00FC21 Arabic ligature sad with meem isolated form
00FC22 Arabic ligature dad with jeem isolated form
00FC23 Arabic ligature dad with hah isolated form
00FC24 Arabic ligature dad with khah isolated form
00FC25 Arabic ligature dad with meem isolated form
00FC26 Arabic ligature tah with hah isolated form
00FC27 Arabic ligature tah with meem isolated form
00FC28 Arabic ligature zah with meem isolated form
00FC29 Arabic ligature ain with jeem isolated form
00FC2A Arabic ligature ain with meem isolated form
00FC2B Arabic ligature ghain with jeem isolated form
00FC2C Arabic ligature ghain with meem isolated form
00FC2D Arabic ligature feh with jeem isolated form
00FC2E Arabic ligature feh with hah isolated form
00FC2F Arabic ligature feh with khah isolated form
00FC30 Arabic ligature feh with meem isolated form
00FC31 Arabic ligature feh with alef maksura isolated form
00FC32 Arabic ligature feh with yeh isolated form
00FC33 Arabic ligature qaf with hah isolated form
00FC34 Arabic ligature qaf with meem isolated form
00FC35 Arabic ligature qaf with alef maksura isolated form
00FC36 Arabic ligature qaf with yeh isolated form
00FC37 Arabic ligature kaf with alef isolated form
00FC38 Arabic ligature kaf with jeem isolated form
00FC39 Arabic ligature kaf with hah isolated form
00FC3A Arabic ligature kaf with khah isolated form
00FC3B Arabic ligature kaf with lam isolated form
00FC3C Arabic ligature kaf with meem isolated form
00FC3D Arabic ligature kaf with alef maksura isolated form
00FC3E Arabic ligature kaf with yeh isolated form
00FC3F Arabic ligature lam with jeem isolated form
00FC40 Arabic ligature lam with hah isolated form
00FC41 Arabic ligature lam with khah isolated form
00FC42 Arabic ligature lam with meem isolated form
00FC43 Arabic ligature lam with alef maksura isolated form
00FC44 Arabic ligature lam with yeh isolated form
00FC45 Arabic ligature meem with jeem isolated form
00FC46 Arabic ligature meem with hah isolated form
00FC47 Arabic ligature meem with khah isolated form
00FC48 Arabic ligature meem with meem isolated form
00FC49 Arabic ligature meem with alef maksura isolated form
00FC4A Arabic ligature meem with yeh isolated form
00FC4B Arabic ligature noon with jeem isolated form
00FC4C Arabic ligature noon with hah isolated form
00FC4D Arabic ligature noon with khah isolated form
00FC4E Arabic ligature noon with meem isolated form
00FC4F Arabic ligature noon with alef maksura isolated form
00FC50 Arabic ligature noon with yeh isolated form
00FC51 Arabic ligature heh with jeem isolated form
00FC52 Arabic ligature heh with meem isolated form
00FC53 Arabic ligature heh with alef maksura isolated form
00FC54 Arabic ligature heh with yeh isolated form
00FC55 Arabic ligature yeh with jeem isolated form
00FC56 Arabic ligature yeh with hah isolated form
00FC57 Arabic ligature yeh with khah isolated form
00FC58 Arabic ligature yeh with meem isolated form
00FC59 Arabic ligature yeh with alef maksura isolated form
00FC5A Arabic ligature yeh with yeh isolated form
00FC5B Arabic ligature thal with superscript alef isolated form
00FC5C Arabic ligature reh with superscript alef isolated form
00FC5D Arabic ligature alef maksura with superscript alef isolated form
00FC5E Arabic ligature shadda with dammatan isolated form
00FC5F Arabic ligature shadda with kasratan isolated form
00FC60 Arabic ligature shadda with fatha isolated form
00FC61 Arabic ligature shadda with damma isolated form
00FC62 Arabic ligature shadda with kasra isolated form
00FC63 Arabic ligature shadda with superscript alef isolated form
00FC64 Arabic ligature yeh with hamza above with reh final form
00FC65 Arabic ligature yeh with hamza above with zain final form
00FC66 Arabic ligature yeh with hamza above with meem final form
00FC67 Arabic ligature yeh with hamza above with noon final form
00FC68 Arabic ligature yeh with hamza above with alef maksura final form
00FC69 Arabic ligature yeh with hamza above with yeh final form
00FC6A Arabic ligature beh with reh final form
00FC6B Arabic ligature beh with zain final form
00FC6C Arabic ligature beh with meem final form
00FC6D Arabic ligature beh with noon final form
00FC6E Arabic ligature beh with alef maksura final form
00FC6F Arabic ligature beh with yeh final form
00FC70 Arabic ligature teh with reh final form
00FC71 Arabic ligature teh with zain final form
00FC72 Arabic ligature teh with meem final form
00FC73 Arabic ligature teh with noon final form
00FC74 Arabic ligature teh with alef maksura final form
00FC75 Arabic ligature teh with yeh final form
00FC76 Arabic ligature theh with reh final form
00FC77 Arabic ligature theh with zain final form
00FC78 Arabic ligature theh with meem final form
00FC79 Arabic ligature theh with noon final form
00FC7A Arabic ligature theh with alef maksura final form
00FC7B Arabic ligature theh with yeh final form
00FC7C Arabic ligature feh with alef maksura final form
00FC7D Arabic ligature feh with yeh final form
00FC7E Arabic ligature qaf with alef maksura final form
00FC7F Arabic ligature qaf with yeh final form
00FC80 Arabic ligature kaf with alef final form
00FC81 Arabic ligature kaf with lam final form
00FC82 Arabic ligature kaf with meem final form
00FC83 Arabic ligature kaf with alef maksura final form
00FC84 Arabic ligature kaf with yeh final form
00FC85 Arabic ligature lam with meem final form
00FC86 Arabic ligature lam with alef maksura final form
00FC87 Arabic ligature lam with yeh final form
00FC88 Arabic ligature meem with alef final form
00FC89 Arabic ligature meem with meem final form
00FC8A Arabic ligature noon with reh final form
00FC8B Arabic ligature noon with zain final form
00FC8C Arabic ligature noon with meem final form
00FC8D Arabic ligature noon with noon final form
00FC8E Arabic ligature noon with alef maksura final form
00FC8F Arabic ligature noon with yeh final form
00FC90 Arabic ligature alef maksura with superscript alef final form
00FC91 Arabic ligature yeh with reh final form
";

pub const NAMES_38: &'static str = "00FC92 Arabic ligature yeh with zain final form
00FC93 Arabic ligature yeh with meem final form
00FC94 Arabic ligature yeh with noon final form
00FC95 Arabic ligature yeh with alef maksura final form
00FC96 Arabic ligature yeh with yeh final form
00FC97 Arabic ligature yeh with hamza above with jeem initial form
00FC98 Arabic ligature yeh with hamza above with hah initial form
00FC99 Arabic ligature yeh with hamza above with khah initial form
00FC9A Arabic ligature yeh with hamza above with meem initial form
00FC9B Arabic ligature yeh with hamza above with heh initial form
00FC9C Arabic ligature beh with jeem initial form
00FC9D Arabic ligature beh with hah initial form
00FC9E Arabic ligature beh with khah initial form
00FC9F Arabic ligature beh with meem initial form
00FCA0 Arabic ligature beh with heh initial form
00FCA1 Arabic ligature teh with jeem initial form
00FCA2 Arabic ligature teh with hah initial form
00FCA3 Arabic ligature teh with khah initial form
00FCA4 Arabic ligature teh with meem initial form
00FCA5 Arabic ligature teh with heh initial form
00FCA6 Arabic ligature theh with meem initial form
00FCA7 Arabic ligature jeem with hah initial form
00FCA8 Arabic ligature jeem with meem initial form
00FCA9 Arabic ligature hah with jeem initial form
00FCAA Arabic ligature hah with meem initial form
00FCAB Arabic ligature khah with jeem initial form
00FCAC Arabic ligature khah with meem initial form
00FCAD Arabic ligature seen with jeem initial form
00FCAE Arabic ligature seen with hah initial form
00FCAF Arabic ligature seen with khah initial form
00FCB0 Arabic ligature seen with meem initial form
00FCB1 Arabic ligature sad with hah initial form
00FCB2 Arabic ligature sad with khah initial form
00FCB3 Arabic ligature sad with meem initial form
00FCB4 Arabic ligature dad with jeem initial form
00FCB5 Arabic ligature dad with hah initial form
00FCB6 Arabic ligature dad with khah initial form
00FCB7 Arabic ligature dad with meem initial form
00FCB8 Arabic ligature tah with hah initial form
00FCB9 Arabic ligature zah with meem initial form
00FCBA Arabic ligature ain with jeem initial form
00FCBB Arabic ligature ain with meem initial form
00FCBC Arabic ligature ghain with jeem initial form
00FCBD Arabic ligature ghain with meem initial form
00FCBE Arabic ligature feh with jeem initial form
00FCBF Arabic ligature feh with hah initial form
00FCC0 Arabic ligature feh with khah initial form
00FCC1 Arabic ligature feh with meem initial form
00FCC2 Arabic ligature qaf with hah initial form
00FCC3 Arabic ligature qaf with meem initial form
00FCC4 Arabic ligature kaf with jeem initial form
00FCC5 Arabic ligature kaf with hah initial form
00FCC6 Arabic ligature kaf with khah initial form
00FCC7 Arabic ligature kaf with lam initial form
00FCC8 Arabic ligature kaf with meem initial form
00FCC9 Arabic ligature lam with jeem initial form
00FCCA Arabic ligature lam with hah initial form
00FCCB Arabic ligature lam with khah initial form
00FCCC Arabic ligature lam with meem initial form
00FCCD Arabic ligature lam with heh initial form
00FCCE Arabic ligature meem with jeem initial form
00FCCF Arabic ligature meem with hah initial form
00FCD0 Arabic ligature meem with khah initial form
00FCD1 Arabic ligature meem with meem initial form
00FCD2 Arabic ligature noon with jeem initial form
00FCD3 Arabic ligature noon with hah initial form
00FCD4 Arabic ligature noon with khah initial form
00FCD5 Arabic ligature noon with meem initial form
00FCD6 Arabic ligature noon with heh initial form
00FCD7 Arabic ligature heh with jeem initial form
00FCD8 Arabic ligature heh with meem initial form
00FCD9 Arabic ligature heh with superscript alef initial form
00FCDA Arabic ligature yeh with jeem initial form
00FCDB Arabic ligature yeh with hah initial form
00FCDC Arabic ligature yeh with khah initial form
00FCDD Arabic ligature yeh with meem initial form
00FCDE Arabic ligature yeh with heh initial form
00FCDF Arabic ligature yeh with hamza above with meem medial form
00FCE0 Arabic ligature yeh with hamza above with heh medial form
00FCE1 Arabic ligature beh with meem medial form
00FCE2 Arabic ligature beh with heh medial form
00FCE3 Arabic ligature teh with meem medial form
00FCE4 Arabic ligature teh with heh medial form
00FCE5 Arabic ligature theh with meem medial form
00FCE6 Arabic ligature theh with heh medial form
00FCE7 Arabic ligature seen with meem medial form
00FCE8 Arabic ligature seen with heh medial form
00FCE9 Arabic ligature sheen with meem medial form
00FCEA Arabic ligature sheen with heh medial form
00FCEB Arabic ligature kaf with lam medial form
00FCEC Arabic ligature kaf with meem medial form
00FCED Arabic ligature lam with meem medial form
00FCEE Arabic ligature noon with meem medial form
00FCEF Arabic ligature noon with heh medial form
00FCF0 Arabic ligature yeh with meem medial form
00FCF1 Arabic ligature yeh with heh medial form
00FCF2 Arabic ligature shadda with fatha medial form
00FCF3 Arabic ligature shadda with damma medial form
00FCF4 Arabic ligature shadda with kasra medial form
00FCF5 Arabic ligature tah with alef maksura isolated form
00FCF6 Arabic ligature tah with yeh isolated form
00FCF7 Arabic ligature ain with alef maksura isolated form
00FCF8 Arabic ligature ain with yeh isolated form
00FCF9 Arabic ligature ghain with alef maksura isolated form
00FCFA Arabic ligature ghain with yeh isolated form
00FCFB Arabic ligature seen with alef maksura isolated form
00FCFC Arabic ligature seen with yeh isolated form
00FCFD Arabic ligature sheen with alef maksura isolated form
00FCFE Arabic ligature sheen with yeh isolated form
00FCFF Arabic ligature hah with alef maksura isolated form
00FD00 Arabic ligature hah with yeh isolated form
00FD01 Arabic ligature jeem with alef maksura isolated form
00FD02 Arabic ligature jeem with yeh isolated form
00FD03 Arabic ligature khah with alef maksura isolated form
00FD04 Arabic ligature khah with yeh isolated form
00FD05 Arabic ligature sad with alef maksura isolated form
00FD06 Arabic ligature sad with yeh isolated form
00FD07 Arabic ligature dad with alef maksura isolated form
00FD08 Arabic ligature dad with yeh isolated form
00FD09 Arabic ligature sheen with jeem isolated form
00FD0A Arabic ligature sheen with hah isolated form
00FD0B Arabic ligature sheen with khah isolated form
00FD0C Arabic ligature sheen with meem isolated form
00FD0D Arabic ligature sheen with reh isolated form
00FD0E Arabic ligature seen with reh isolated form
00FD0F Arabic ligature sad with reh isolated form
00FD10 Arabic ligature dad with reh isolated form
00FD11 Arabic ligature tah with alef maksura final form
00FD12 Arabic ligature tah with yeh final form
00FD13 Arabic ligature ain with alef maksura final form
00FD14 Arabic ligature ain with yeh final form
00FD15 Arabic ligature ghain with alef maksura final form
00FD16 Arabic ligature ghain with yeh final form
00FD17 Arabic ligature seen with alef maksura final form
00FD18 Arabic ligature seen with yeh final form
00FD19 Arabic ligature sheen with alef maksura final form
00FD1A Arabic ligature sheen with yeh final form
00FD1B Arabic ligature hah with alef maksura final form
00FD1C Arabic ligature hah with yeh final form
00FD1D Arabic ligature jeem with alef maksura final form
00FD1E Arabic ligature jeem with yeh final form
00FD1F Arabic ligature khah with alef maksura final form
00FD20 Arabic ligature khah with yeh final form
00FD21 Arabic ligature sad with alef maksura final form
00FD22 Arabic ligature sad with yeh final form
00FD23 Arabic ligature dad with alef maksura final form
00FD24 Arabic ligature dad with yeh final form
00FD25 Arabic ligature sheen with jeem final form
00FD26 Arabic ligature sheen with hah final form
00FD27 Arabic ligature sheen with khah final form
00FD28 Arabic ligature sheen with meem final form
00FD29 Arabic ligature sheen with reh final form
00FD2A Arabic ligature seen with reh final form
00FD2B Arabic ligature sad with reh final form
00FD2C Arabic ligature dad with reh final form
00FD2D Arabic ligature sheen with jeem initial form
00FD2E Arabic ligature sheen with hah initial form
00FD2F Arabic ligature sheen with khah initial form
00FD30 Arabic ligature sheen with meem initial form
00FD31 Arabic ligature seen with heh initial form
00FD32 Arabic ligature sheen with heh initial form
00FD33 Arabic ligature tah with meem initial form
00FD34 Arabic ligature seen with jeem medial form
00FD35 Arabic ligature seen with hah medial form
00FD36 Arabic ligature seen with khah medial form
00FD37 Arabic ligature sheen with jeem medial form
00FD38 Arabic ligature sheen with hah medial form
00FD39 Arabic ligature sheen with khah medial form
00FD3A Arabic ligature tah with meem medial form
00FD3B Arabic ligature zah with meem medial form
00FD3C Arabic ligature alef with fathatan final form
00FD3D Arabic ligature alef with fathatan isolated form
00FD3E Ornate left parenthesis
00FD3F Ornate right parenthesis
00FD40 Arabic ligature rahimahu allaah
00FD41 Arabic ligature radi allaahu anh
00FD42 Arabic ligature radi allaahu anhaa
00FD43 Arabic ligature radi allaahu anhum
00FD44 Arabic ligature radi allaahu anhumaa
00FD45 Arabic ligature radi allaahu anhunna
00FD46 Arabic ligature sallallaahu alayhi wa-aalih
00FD47 Arabic ligature alayhi as-salaam
00FD48 Arabic ligature alayhim as-salaam
00FD49 Arabic ligature alayhimaa as-salaam
00FD4A Arabic ligature alayhi as-salaatu was-salaam
00FD4B Arabic ligature quddisa sirrah
00FD4C Arabic ligature sallallahu alayhi waaalihee wa-sallam
00FD4D Arabic ligature alayhaa as-salaam
00FD4E Arabic ligature tabaaraka wa-taaalaa
00FD4F Arabic ligature rahimahum allaah
00FD50 Arabic ligature teh with jeem with meem initial form
00FD51 Arabic ligature teh with hah with jeem final form
00FD52 Arabic ligature teh with hah with jeem initial form
00FD53 Arabic ligature teh with hah with meem initial form
00FD54 Arabic ligature teh with khah with meem initial form
00FD55 Arabic ligature teh with meem with jeem initial form
00FD56 Arabic ligature teh with meem with hah initial form
00FD57 Arabic ligature teh with meem with khah initial form
00FD58 Arabic ligature jeem with meem with hah final form
00FD59 Arabic ligature jeem with meem with hah initial form
00FD5A Arabic ligature hah with meem with yeh final form
00FD5B Arabic ligature hah with meem with alef maksura final form
00FD5C Arabic ligature seen with hah with jeem initial form
00FD5D Arabic ligature seen with jeem with hah initial form
00FD5E Arabic ligature seen with jeem with alef maksura final form
00FD5F Arabic ligature seen with meem with hah final form
00FD60 Arabic ligature seen with meem with hah initial form
00FD61 Arabic ligature seen with meem with jeem initial form
00FD62 Arabic ligature seen with meem with meem final form
00FD63 Arabic ligature seen with meem with meem initial form
00FD64 Arabic ligature sad with hah with hah final form
00FD65 Arabic ligature sad with hah with hah initial form
00FD66 Arabic ligature sad with meem with meem final form
00FD67 Arabic ligature sheen with hah with meem final form
00FD68 Arabic ligature sheen with hah with meem initial form
00FD69 Arabic ligature sheen with jeem with yeh final form
00FD6A Arabic ligature sheen with meem with khah final form
00FD6B Arabic ligature sheen with meem with khah initial form
00FD6C Arabic ligature sheen with meem with meem final form
00FD6D Arabic ligature sheen with meem with meem initial form
00FD6E Arabic ligature dad with hah with alef maksura final form
00FD6F Arabic ligature dad with khah with meem final form
00FD70 Arabic ligature dad with khah with meem initial form
00FD71 Arabic ligature tah with meem with hah final form
00FD72 Arabic ligature tah with meem with hah initial form
00FD73 Arabic ligature tah with meem with meem initial form
00FD74 Arabic ligature tah with meem with yeh final form
00FD75 Arabic ligature ain with jeem with meem final form
00FD76 Arabic ligature ain with meem with meem final form
00FD77 Arabic ligature ain with meem with meem initial form
00FD78 Arabic ligature ain with meem with alef maksura final form
00FD79 Arabic ligature ghain with meem with meem final form
00FD7A Arabic ligature ghain with meem with yeh final form
00FD7B Arabic ligature ghain with meem with alef maksura final form
00FD7C Arabic ligature feh with khah with meem final form
00FD7D Arabic ligature feh with khah with meem initial form
00FD7E Arabic ligature qaf with meem with hah final form
00FD7F Arabic ligature qaf with meem with meem final form
00FD80 Arabic ligature lam with hah with meem final form
00FD81 Arabic ligature lam with hah with yeh final form
00FD82 Arabic ligature lam with hah with alef maksura final form
00FD83 Arabic ligature lam with jeem with jeem initial form
00FD84 Arabic ligature lam with jeem with jeem final form
00FD85 Arabic ligature lam with khah with meem final form
00FD86 Arabic ligature lam with khah with meem initial form
00FD87 Arabic ligature lam with meem with hah final form
00FD88 Arabic ligature lam with meem with hah initial form
00FD89 Arabic ligature meem with hah with jeem initial form
00FD8A Arabic ligature meem with hah with meem initial form
00FD8B Arabic ligature meem with hah with yeh final form
00FD8C Arabic ligature meem with jeem with hah initial form
00FD8D Arabic ligature meem with jeem with meem initial form
00FD8E Arabic ligature meem with khah with jeem initial form
00FD8F Arabic ligature meem with khah with meem initial form
00FD92 Arabic ligature meem with jeem with khah initial form
00FD93 Arabic ligature heh with meem with jeem initial form
00FD94 Arabic ligature heh with meem with meem initial form
00FD95 Arabic ligature noon with hah with meem initial form
00FD96 Arabic ligature noon with hah with alef maksura final form
00FD97 Arabic ligature noon with jeem with meem final form
00FD98 Arabic ligature noon with jeem with meem initial form
00FD99 Arabic ligature noon with jeem with alef maksura final form
";

pub const NAMES_39: &'static str = "00FD9A Arabic ligature noon with meem with yeh final form
00FD9B Arabic ligature noon with meem with alef maksura final form
00FD9C Arabic ligature yeh with meem with meem final form
00FD9D Arabic ligature yeh with meem with meem initial form
00FD9E Arabic ligature beh with khah with yeh final form
00FD9F Arabic ligature teh with jeem with yeh final form
00FDA0 Arabic ligature teh with jeem with alef maksura final form
00FDA1 Arabic ligature teh with khah with yeh final form
00FDA2 Arabic ligature teh with khah with alef maksura final form
00FDA3 Arabic ligature teh with meem with yeh final form
00FDA4 Arabic ligature teh with meem with alef maksura final form
00FDA5 Arabic ligature jeem with meem with yeh final form
00FDA6 Arabic ligature jeem with hah with alef maksura final form
00FDA7 Arabic ligature jeem with meem with alef maksura final form
00FDA8 Arabic ligature seen with khah with alef maksura final form
00FDA9 Arabic ligature sad with hah with yeh final form
00FDAA Arabic ligature sheen with hah with yeh final form
00FDAB Arabic ligature dad with hah with yeh final form
00FDAC Arabic ligature lam with jeem with yeh final form
00FDAD Arabic ligature lam with meem with yeh final form
00FDAE Arabic ligature yeh with hah with yeh final form
00FDAF Arabic ligature yeh with jeem with yeh final form
00FDB0 Arabic ligature yeh with meem with yeh final form
00FDB1 Arabic ligature meem with meem with yeh final form
00FDB2 Arabic ligature qaf with meem with yeh final form
00FDB3 Arabic ligature noon with hah with yeh final form
00FDB4 Arabic ligature qaf with meem with hah initial form
00FDB5 Arabic ligature lam with hah with meem initial form
00FDB6 Arabic ligature ain with meem with yeh final form
00FDB7 Arabic ligature kaf with meem with yeh final form
00FDB8 Arabic ligature noon with jeem with hah initial form
00FDB9 Arabic ligature meem with khah with yeh final form
00FDBA Arabic ligature lam with jeem with meem initial form
00FDBB Arabic ligature kaf with meem with meem final form
00FDBC Arabic ligature lam with jeem with meem final form
00FDBD Arabic ligature noon with jeem with hah final form
00FDBE Arabic ligature jeem with hah with yeh final form
00FDBF Arabic ligature hah with jeem with yeh final form
00FDC0 Arabic ligature meem with jeem with yeh final form
00FDC1 Arabic ligature feh with meem with yeh final form
00FDC2 Arabic ligature beh with hah with yeh final form
00FDC3 Arabic ligature kaf with meem with meem initial form
00FDC4 Arabic ligature ain with jeem with meem initial form
00FDC5 Arabic ligature sad with meem with meem initial form
00FDC6 Arabic ligature seen with khah with yeh final form
00FDC7 Arabic ligature noon with jeem with yeh final form
00FDCF Arabic ligature salaamuhu alaynaa
00FDF0 Arabic ligature salla used as koranic stop sign isolated form
00FDF1 Arabic ligature qala used as koranic stop sign isolated form
00FDF2 Arabic ligature allah isolated form
00FDF3 Arabic ligature akbar isolated form
00FDF4 Arabic ligature mohammad isolated form
00FDF5 Arabic ligature salam isolated form
00FDF6 Arabic ligature rasoul isolated form
00FDF7 Arabic ligature alayhe isolated form
00FDF8 Arabic ligature wasallam isolated form
00FDF9 Arabic ligature salla isolated form
00FDFA Arabic ligature sallallahou alayhe wasallam
00FDFB Arabic ligature jallajalalouhou
00FDFC Rial sign
00FDFD Arabic ligature bismillah ar-rahman ar-raheem
00FDFE Arabic ligature subhaanahu wa taaalaa
00FDFF Arabic ligature azza wa jall
00FE00 Variation selector-1
00FE01 Variation selector-2
00FE02 Variation selector-3
00FE03 Variation selector-4
00FE04 Variation selector-5
00FE05 Variation selector-6
00FE06 Variation selector-7
00FE07 Variation selector-8
00FE08 Variation selector-9
00FE09 Variation selector-10
00FE0A Variation selector-11
00FE0B Variation selector-12
00FE0C Variation selector-13
00FE0D Variation selector-14
00FE0E Variation selector-15
00FE0F Variation selector-16
00FE10 Presentation form for vertical comma
00FE11 Presentation form for vertical ideographic comma
00FE12 Presentation form for vertical ideographic full stop
00FE13 Presentation form for vertical colon
00FE14 Presentation form for vertical semicolon
00FE15 Presentation form for vertical exclamation mark
00FE16 Presentation form for vertical question mark
00FE17 Presentation form for vertical left white lenticular bracket
00FE18 Presentation form for vertical right white lenticular brakcet
00FE19 Presentation form for vertical horizontal ellipsis
00FE20 Combining ligature left half
00FE21 Combining ligature right half
00FE22 Combining double tilde left half
00FE23 Combining double tilde right half
00FE24 Combining macron left half
00FE25 Combining macron right half
00FE26 Combining conjoining macron
00FE27 Combining ligature left half below
00FE28 Combining ligature right half below
00FE29 Combining tilde left half below
00FE2A Combining tilde right half below
00FE2B Combining macron left half below
00FE2C Combining macron right half below
00FE2D Combining conjoining macron below
00FE2E Combining cyrillic titlo left half
00FE2F Combining cyrillic titlo right half
00FE30 Presentation form for vertical two dot leader
00FE31 Presentation form for vertical em dash
00FE32 Presentation form for vertical en dash
00FE33 Presentation form for vertical low line
00FE34 Presentation form for vertical wavy low line
00FE35 Presentation form for vertical left parenthesis
00FE36 Presentation form for vertical right parenthesis
00FE37 Presentation form for vertical left curly bracket
00FE38 Presentation form for vertical right curly bracket
00FE39 Presentation form for vertical left tortoise shell bracket
00FE3A Presentation form for vertical right tortoise shell bracket
00FE3B Presentation form for vertical left black lenticular bracket
00FE3C Presentation form for vertical right black lenticular bracket
00FE3D Presentation form for vertical left double angle bracket
00FE3E Presentation form for vertical right double angle bracket
00FE3F Presentation form for vertical left angle bracket
00FE40 Presentation form for vertical right angle bracket
00FE41 Presentation form for vertical left corner bracket
00FE42 Presentation form for vertical right corner bracket
00FE43 Presentation form for vertical left white corner bracket
00FE44 Presentation form for vertical right white corner bracket
00FE45 Sesame dot
00FE46 White sesame dot
00FE47 Presentation form for vertical left square bracket
00FE48 Presentation form for vertical right square bracket
00FE49 Dashed overline
00FE4A Centreline overline
00FE4B Wavy overline
00FE4C Double wavy overline
00FE4D Dashed low line
00FE4E Centreline low line
00FE4F Wavy low line
00FE50 Small comma
00FE51 Small ideographic comma
00FE52 Small full stop
00FE54 Small semicolon
00FE55 Small colon
00FE56 Small question mark
00FE57 Small exclamation mark
00FE58 Small em dash
00FE59 Small left parenthesis
00FE5A Small right parenthesis
00FE5B Small left curly bracket
00FE5C Small right curly bracket
00FE5D Small left tortoise shell bracket
00FE5E Small right tortoise shell bracket
00FE5F Small number sign
00FE60 Small ampersand
00FE61 Small asterisk
00FE62 Small plus sign
00FE63 Small hyphen-minus
00FE64 Small less-than sign
00FE65 Small greater-than sign
00FE66 Small equals sign
00FE68 Small reverse solidus
00FE69 Small dollar sign
00FE6A Small percent sign
00FE6B Small commercial at
00FE70 Arabic fathatan isolated form
00FE71 Arabic tatweel with fathatan above
00FE72 Arabic dammatan isolated form
00FE73 Arabic tail fragment
00FE74 Arabic kasratan isolated form
00FE76 Arabic fatha isolated form
00FE77 Arabic fatha medial form
00FE78 Arabic damma isolated form
00FE79 Arabic damma medial form
00FE7A Arabic kasra isolated form
00FE7B Arabic kasra medial form
00FE7C Arabic shadda isolated form
00FE7D Arabic shadda medial form
00FE7E Arabic sukun isolated form
00FE7F Arabic sukun medial form
00FE80 Arabic letter hamza isolated form
00FE81 Arabic letter alef with madda above isolated form
00FE82 Arabic letter alef with madda above final form
00FE83 Arabic letter alef with hamza above isolated form
00FE84 Arabic letter alef with hamza above final form
00FE85 Arabic letter waw with hamza above isolated form
00FE86 Arabic letter waw with hamza above final form
00FE87 Arabic letter alef with hamza below isolated form
00FE88 Arabic letter alef with hamza below final form
00FE89 Arabic letter yeh with hamza above isolated form
00FE8A Arabic letter yeh with hamza above final form
00FE8B Arabic letter yeh with hamza above initial form
00FE8C Arabic letter yeh with hamza above medial form
00FE8D Arabic letter alef isolated form
00FE8E Arabic letter alef final form
00FE8F Arabic letter beh isolated form
00FE90 Arabic letter beh final form
00FE91 Arabic letter beh initial form
00FE92 Arabic letter beh medial form
00FE93 Arabic letter teh marbuta isolated form
00FE94 Arabic letter teh marbuta final form
00FE95 Arabic letter teh isolated form
00FE96 Arabic letter teh final form
00FE97 Arabic letter teh initial form
00FE98 Arabic letter teh medial form
00FE99 Arabic letter theh isolated form
00FE9A Arabic letter theh final form
00FE9B Arabic letter theh initial form
00FE9C Arabic letter theh medial form
00FE9D Arabic letter jeem isolated form
00FE9E Arabic letter jeem final form
00FE9F Arabic letter jeem initial form
00FEA0 Arabic letter jeem medial form
00FEA1 Arabic letter hah isolated form
00FEA2 Arabic letter hah final form
00FEA3 Arabic letter hah initial form
00FEA4 Arabic letter hah medial form
00FEA5 Arabic letter khah isolated form
00FEA6 Arabic letter khah final form
00FEA7 Arabic letter khah initial form
00FEA8 Arabic letter khah medial form
00FEA9 Arabic letter dal isolated form
00FEAA Arabic letter dal final form
00FEAB Arabic letter thal isolated form
00FEAC Arabic letter thal final form
00FEAD Arabic letter reh isolated form
00FEAE Arabic letter reh final form
00FEAF Arabic letter zain isolated form
00FEB0 Arabic letter zain final form
00FEB1 Arabic letter seen isolated form
00FEB2 Arabic letter seen final form
00FEB3 Arabic letter seen initial form
00FEB4 Arabic letter seen medial form
00FEB5 Arabic letter sheen isolated form
00FEB6 Arabic letter sheen final form
00FEB7 Arabic letter sheen initial form
00FEB8 Arabic letter sheen medial form
00FEB9 Arabic letter sad isolated form
00FEBA Arabic letter sad final form
00FEBB Arabic letter sad initial form
00FEBC Arabic letter sad medial form
00FEBD Arabic letter dad isolated form
00FEBE Arabic letter dad final form
00FEBF Arabic letter dad initial form
00FEC0 Arabic letter dad medial form
00FEC1 Arabic letter tah isolated form
00FEC2 Arabic letter tah final form
00FEC3 Arabic letter tah initial form
00FEC4 Arabic letter tah medial form
00FEC5 Arabic letter zah isolated form
00FEC6 Arabic letter zah final form
00FEC7 Arabic letter zah initial form
00FEC8 Arabic letter zah medial form
00FEC9 Arabic letter ain isolated form
00FECA Arabic letter ain final form
00FECB Arabic letter ain initial form
00FECC Arabic letter ain medial form
00FECD Arabic letter ghain isolated form
00FECE Arabic letter ghain final form
00FECF Arabic letter ghain initial form
00FED0 Arabic letter ghain medial form
00FED1 Arabic letter feh isolated form
00FED2 Arabic letter feh final form
00FED3 Arabic letter feh initial form
00FED4 Arabic letter feh medial form
00FED5 Arabic letter qaf isolated form
00FED6 Arabic letter qaf final form
00FED7 Arabic letter qaf initial form
00FED8 Arabic letter qaf medial form
00FED9 Arabic letter kaf isolated form
00FEDA Arabic letter kaf final form
00FEDB Arabic letter kaf initial form
00FEDC Arabic letter kaf medial form
00FEDD Arabic letter lam isolated form
00FEDE Arabic letter lam final form
00FEDF Arabic letter lam initial form
00FEE0 Arabic letter lam medial form
00FEE1 Arabic letter meem isolated form
00FEE2 Arabic letter meem final form
00FEE3 Arabic letter meem initial form
00FEE4 Arabic letter meem medial form
00FEE5 Arabic letter noon isolated form
00FEE6 Arabic letter noon final form
00FEE7 Arabic letter noon initial form
00FEE8 Arabic letter noon medial form
00FEE9 Arabic letter heh isolated form
00FEEA Arabic letter heh final form
00FEEB Arabic letter heh initial form
00FEEC Arabic letter heh medial form
00FEED Arabic letter waw isolated form
00FEEE Arabic letter waw final form
00FEEF Arabic letter alef maksura isolated form
00FEF0 Arabic letter alef maksura final form
00FEF1 Arabic letter yeh isolated form
00FEF2 Arabic letter yeh final form
00FEF3 Arabic letter yeh initial form
00FEF4 Arabic letter yeh medial form
00FEF5 Arabic ligature lam with alef with madda above isolated form
00FEF6 Arabic ligature lam with alef with madda above final form
00FEF7 Arabic ligature lam with alef with hamza above isolated form
00FEF8 Arabic ligature lam with alef with hamza above final form
00FEF9 Arabic ligature lam with alef with hamza below isolated form
00FEFA Arabic ligature lam with alef with hamza below final form
00FEFB Arabic ligature lam with alef isolated form
00FEFC Arabic ligature lam with alef final form
00FEFF Zero width no-break space
00FF01 Fullwidth exclamation mark
00FF02 Fullwidth quotation mark
00FF03 Fullwidth number sign
00FF04 Fullwidth dollar sign
00FF05 Fullwidth percent sign
00FF06 Fullwidth ampersand
00FF07 Fullwidth apostrophe
00FF08 Fullwidth left parenthesis
00FF09 Fullwidth right parenthesis
00FF0A Fullwidth asterisk
00FF0B Fullwidth plus sign
00FF0C Fullwidth comma
00FF0D Fullwidth hyphen-minus
00FF0E Fullwidth full stop
00FF0F Fullwidth solidus
00FF10 Fullwidth digit zero
00FF11 Fullwidth digit one
00FF12 Fullwidth digit two
00FF13 Fullwidth digit three
00FF14 Fullwidth digit four
00FF15 Fullwidth digit five
00FF16 Fullwidth digit six
00FF17 Fullwidth digit seven
00FF18 Fullwidth digit eight
00FF19 Fullwidth digit nine
00FF1A Fullwidth colon
00FF1B Fullwidth semicolon
00FF1C Fullwidth less-than sign
00FF1D Fullwidth equals sign
00FF1E Fullwidth greater-than sign
";

pub const NAMES_40: &'static str = "00FF1F Fullwidth question mark
00FF20 Fullwidth commercial at
00FF21 Fullwidth latin capital letter a
00FF22 Fullwidth latin capital letter b
00FF23 Fullwidth latin capital letter c
00FF24 Fullwidth latin capital letter d
00FF25 Fullwidth latin capital letter e
00FF26 Fullwidth latin capital letter f
00FF27 Fullwidth latin capital letter g
00FF28 Fullwidth latin capital letter h
00FF29 Fullwidth latin capital letter i
00FF2A Fullwidth latin capital letter j
00FF2B Fullwidth latin capital letter k
00FF2C Fullwidth latin capital letter l
00FF2D Fullwidth latin capital letter m
00FF2E Fullwidth latin capital letter n
00FF2F Fullwidth latin capital letter o
00FF30 Fullwidth latin capital letter p
00FF31 Fullwidth latin capital letter q
00FF32 Fullwidth latin capital letter r
00FF33 Fullwidth latin capital letter s
00FF34 Fullwidth latin capital letter t
00FF35 Fullwidth latin capital letter u
00FF36 Fullwidth latin capital letter v
00FF37 Fullwidth latin capital letter w
00FF38 Fullwidth latin capital letter x
00FF39 Fullwidth latin capital letter y
00FF3A Fullwidth latin capital letter z
00FF3B Fullwidth left square bracket
00FF3C Fullwidth reverse solidus
00FF3D Fullwidth right square bracket
00FF3E Fullwidth circumflex accent
00FF3F Fullwidth low line
00FF40 Fullwidth grave accent
00FF41 Fullwidth latin small letter a
00FF42 Fullwidth latin small letter b
00FF43 Fullwidth latin small letter c
00FF44 Fullwidth latin small letter d
00FF45 Fullwidth latin small letter e
00FF46 Fullwidth latin small letter f
00FF47 Fullwidth latin small letter g
00FF48 Fullwidth latin small letter h
00FF49 Fullwidth latin small letter i
00FF4A Fullwidth latin small letter j
00FF4B Fullwidth latin small letter k
00FF4C Fullwidth latin small letter l
00FF4D Fullwidth latin small letter m
00FF4E Fullwidth latin small letter n
00FF4F Fullwidth latin small letter o
00FF50 Fullwidth latin small letter p
00FF51 Fullwidth latin small letter q
00FF52 Fullwidth latin small letter r
00FF53 Fullwidth latin small letter s
00FF54 Fullwidth latin small letter t
00FF55 Fullwidth latin small letter u
00FF56 Fullwidth latin small letter v
00FF57 Fullwidth latin small letter w
00FF58 Fullwidth latin small letter x
00FF59 Fullwidth latin small letter y
00FF5A Fullwidth latin small letter z
00FF5B Fullwidth left curly bracket
00FF5C Fullwidth vertical line
00FF5D Fullwidth right curly bracket
00FF5E Fullwidth tilde
00FF5F Fullwidth left white parenthesis
00FF60 Fullwidth right white parenthesis
00FF61 Halfwidth ideographic full stop
00FF62 Halfwidth left corner bracket
00FF63 Halfwidth right corner bracket
00FF64 Halfwidth ideographic comma
00FF65 Halfwidth katakana middle dot
00FF66 Halfwidth katakana letter wo
00FF67 Halfwidth katakana letter small a
00FF68 Halfwidth katakana letter small i
00FF69 Halfwidth katakana letter small u
00FF6A Halfwidth katakana letter small e
00FF6B Halfwidth katakana letter small o
00FF6C Halfwidth katakana letter small ya
00FF6D Halfwidth katakana letter small yu
00FF6E Halfwidth katakana letter small yo
00FF6F Halfwidth katakana letter small tu
00FF70 Halfwidth katakana-hiragana prolonged sound mark
00FF71 Halfwidth katakana letter a
00FF72 Halfwidth katakana letter i
00FF73 Halfwidth katakana letter u
00FF74 Halfwidth katakana letter e
00FF75 Halfwidth katakana letter o
00FF76 Halfwidth katakana letter ka
00FF77 Halfwidth katakana letter ki
00FF78 Halfwidth katakana letter ku
00FF79 Halfwidth katakana letter ke
00FF7A Halfwidth katakana letter ko
00FF7B Halfwidth katakana letter sa
00FF7C Halfwidth katakana letter si
00FF7D Halfwidth katakana letter su
00FF7E Halfwidth katakana letter se
00FF7F Halfwidth katakana letter so
00FF80 Halfwidth katakana letter ta
00FF81 Halfwidth katakana letter ti
00FF82 Halfwidth katakana letter tu
00FF83 Halfwidth katakana letter te
00FF84 Halfwidth katakana letter to
00FF85 Halfwidth katakana letter na
00FF86 Halfwidth katakana letter ni
00FF87 Halfwidth katakana letter nu
00FF88 Halfwidth katakana letter ne
00FF89 Halfwidth katakana letter no
00FF8A Halfwidth katakana letter ha
00FF8B Halfwidth katakana letter hi
00FF8C Halfwidth katakana letter hu
00FF8D Halfwidth katakana letter he
00FF8E Halfwidth katakana letter ho
00FF8F Halfwidth katakana letter ma
00FF90 Halfwidth katakana letter mi
00FF91 Halfwidth katakana letter mu
00FF92 Halfwidth katakana letter me
00FF93 Halfwidth katakana letter mo
00FF94 Halfwidth katakana letter ya
00FF95 Halfwidth katakana letter yu
00FF96 Halfwidth katakana letter yo
00FF97 Halfwidth katakana letter ra
00FF98 Halfwidth katakana letter ri
00FF99 Halfwidth katakana letter ru
00FF9A Halfwidth katakana letter re
00FF9B Halfwidth katakana letter ro
00FF9C Halfwidth katakana letter wa
00FF9D Halfwidth katakana letter n
00FF9E Halfwidth katakana voiced sound mark
00FF9F Halfwidth katakana semi-voiced sound mark
00FFA0 Halfwidth hangul filler
00FFA1 Halfwidth hangul letter kiyeok
00FFA2 Halfwidth hangul letter ssangkiyeok
00FFA3 Halfwidth hangul letter kiyeok-sios
00FFA4 Halfwidth hangul letter nieun
00FFA5 Halfwidth hangul letter nieun-cieuc
00FFA6 Halfwidth hangul letter nieun-hieuh
00FFA7 Halfwidth hangul letter tikeut
00FFA8 Halfwidth hangul letter ssangtikeut
00FFA9 Halfwidth hangul letter rieul
00FFAA Halfwidth hangul letter rieul-kiyeok
00FFAB Halfwidth hangul letter rieul-mieum
00FFAC Halfwidth hangul letter rieul-pieup
00FFAD Halfwidth hangul letter rieul-sios
00FFAE Halfwidth hangul letter rieul-thieuth
00FFAF Halfwidth hangul letter rieul-phieuph
00FFB0 Halfwidth hangul letter rieul-hieuh
00FFB1 Halfwidth hangul letter mieum
00FFB2 Halfwidth hangul letter pieup
00FFB3 Halfwidth hangul letter ssangpieup
00FFB4 Halfwidth hangul letter pieup-sios
00FFB5 Halfwidth hangul letter sios
00FFB6 Halfwidth hangul letter ssangsios
00FFB7 Halfwidth hangul letter ieung
00FFB8 Halfwidth hangul letter cieuc
00FFB9 Halfwidth hangul letter ssangcieuc
00FFBA Halfwidth hangul letter chieuch
00FFBB Halfwidth hangul letter khieukh
00FFBC Halfwidth hangul letter thieuth
00FFBD Halfwidth hangul letter phieuph
00FFBE Halfwidth hangul letter hieuh
00FFC2 Halfwidth hangul letter a
00FFC3 Halfwidth hangul letter ae
00FFC4 Halfwidth hangul letter ya
00FFC5 Halfwidth hangul letter yae
00FFC6 Halfwidth hangul letter eo
00FFC7 Halfwidth hangul letter e
00FFCA Halfwidth hangul letter yeo
00FFCB Halfwidth hangul letter ye
00FFCC Halfwidth hangul letter o
00FFCD Halfwidth hangul letter wa
00FFCE Halfwidth hangul letter wae
00FFCF Halfwidth hangul letter oe
00FFD2 Halfwidth hangul letter yo
00FFD3 Halfwidth hangul letter u
00FFD4 Halfwidth hangul letter weo
00FFD5 Halfwidth hangul letter we
00FFD6 Halfwidth hangul letter wi
00FFD7 Halfwidth hangul letter yu
00FFDA Halfwidth hangul letter eu
00FFDB Halfwidth hangul letter yi
00FFDC Halfwidth hangul letter i
00FFE0 Fullwidth cent sign
00FFE1 Fullwidth pound sign
00FFE2 Fullwidth not sign
00FFE3 Fullwidth macron
00FFE4 Fullwidth broken bar
00FFE5 Fullwidth yen sign
00FFE6 Fullwidth won sign
00FFE8 Halfwidth forms light vertical
00FFE9 Halfwidth leftwards arrow
00FFEA Halfwidth upwards arrow
00FFEB Halfwidth rightwards arrow
00FFEC Halfwidth downwards arrow
00FFED Halfwidth black square
00FFEE Halfwidth white circle
00FFF9 Interlinear annotation anchor
00FFFA Interlinear annotation separator
00FFFB Interlinear annotation terminator
00FFFC Object replacement character
00FFFD Replacement character
010000 Linear b syllable b008 a
010001 Linear b syllable b038 e
010002 Linear b syllable b028 i
010003 Linear b syllable b061 o
010004 Linear b syllable b010 u
010005 Linear b syllable b001 da
010006 Linear b syllable b045 de
010007 Linear b syllable b007 di
010008 Linear b syllable b014 do
010009 Linear b syllable b051 du
01000A Linear b syllable b057 ja
01000B Linear b syllable b046 je
01000D Linear b syllable b036 jo
01000E Linear b syllable b065 ju
01000F Linear b syllable b077 ka
010010 Linear b syllable b044 ke
010011 Linear b syllable b067 ki
010012 Linear b syllable b070 ko
010013 Linear b syllable b081 ku
010014 Linear b syllable b080 ma
010015 Linear b syllable b013 me
010016 Linear b syllable b073 mi
010017 Linear b syllable b015 mo
010018 Linear b syllable b023 mu
010019 Linear b syllable b006 na
01001A Linear b syllable b024 ne
01001B Linear b syllable b030 ni
01001C Linear b syllable b052 no
01001D Linear b syllable b055 nu
01001E Linear b syllable b003 pa
01001F Linear b syllable b072 pe
010020 Linear b syllable b039 pi
010021 Linear b syllable b011 po
010022 Linear b syllable b050 pu
010023 Linear b syllable b016 qa
010024 Linear b syllable b078 qe
010025 Linear b syllable b021 qi
010026 Linear b syllable b032 qo
010028 Linear b syllable b060 ra
010029 Linear b syllable b027 re
01002A Linear b syllable b053 ri
01002B Linear b syllable b002 ro
01002C Linear b syllable b026 ru
01002D Linear b syllable b031 sa
01002E Linear b syllable b009 se
01002F Linear b syllable b041 si
010030 Linear b syllable b012 so
010031 Linear b syllable b058 su
010032 Linear b syllable b059 ta
010033 Linear b syllable b004 te
010034 Linear b syllable b037 ti
010035 Linear b syllable b005 to
010036 Linear b syllable b069 tu
010037 Linear b syllable b054 wa
010038 Linear b syllable b075 we
010039 Linear b syllable b040 wi
01003A Linear b syllable b042 wo
01003C Linear b syllable b017 za
01003D Linear b syllable b074 ze
01003F Linear b syllable b020 zo
010040 Linear b syllable b025 a2
010041 Linear b syllable b043 a3
010042 Linear b syllable b085 au
010043 Linear b syllable b071 dwe
010044 Linear b syllable b090 dwo
010045 Linear b syllable b048 nwa
010046 Linear b syllable b029 pu2
010047 Linear b syllable b062 pte
010048 Linear b syllable b076 ra2
010049 Linear b syllable b033 ra3
01004A Linear b syllable b068 ro2
01004B Linear b syllable b066 ta2
01004C Linear b syllable b087 twe
01004D Linear b syllable b091 two
010050 Linear b symbol b018
010051 Linear b symbol b019
010052 Linear b symbol b022
010053 Linear b symbol b034
010054 Linear b symbol b047
010055 Linear b symbol b049
010056 Linear b symbol b056
010057 Linear b symbol b063
010058 Linear b symbol b064
010059 Linear b symbol b079
01005A Linear b symbol b082
01005B Linear b symbol b083
01005C Linear b symbol b086
01005D Linear b symbol b089
010080 Linear b ideogram b100 man
010081 Linear b ideogram b102 woman
010082 Linear b ideogram b104 deer
010083 Linear b ideogram b105 equid
010084 Linear b ideogram b105f mare
010085 Linear b ideogram b105m stallion
010086 Linear b ideogram b106f ewe
010087 Linear b ideogram b106m ram
010088 Linear b ideogram b107f she-goat
010089 Linear b ideogram b107m he-goat
01008A Linear b ideogram b108f sow
01008B Linear b ideogram b108m boar
01008C Linear b ideogram b109f cow
01008D Linear b ideogram b109m bull
01008E Linear b ideogram b120 wheat
01008F Linear b ideogram b121 barley
010090 Linear b ideogram b122 olive
010091 Linear b ideogram b123 spice
010092 Linear b ideogram b125 cyperus
010093 Linear b monogram b127 kapo
010094 Linear b monogram b128 kanako
010095 Linear b ideogram b130 oil
010096 Linear b ideogram b131 wine
010097 Linear b ideogram b132
010098 Linear b monogram b133 arepa
010099 Linear b monogram b135 meri
01009A Linear b ideogram b140 bronze
01009B Linear b ideogram b141 gold
01009C Linear b ideogram b142
01009D Linear b ideogram b145 wool
01009E Linear b ideogram b146
01009F Linear b ideogram b150
0100A0 Linear b ideogram b151 horn
0100A1 Linear b ideogram b152
0100A2 Linear b ideogram b153
0100A3 Linear b ideogram b154
0100A4 Linear b monogram b156 turo2
0100A5 Linear b ideogram b157
0100A6 Linear b ideogram b158
0100A7 Linear b ideogram b159 cloth
0100A8 Linear b ideogram b160
0100A9 Linear b ideogram b161
0100AA Linear b ideogram b162 garment
0100AB Linear b ideogram b163 armour
0100AC Linear b ideogram b164
0100AD Linear b ideogram b165
0100AE Linear b ideogram b166
0100AF Linear b ideogram b167
0100B0 Linear b ideogram b168
0100B1 Linear b ideogram b169
0100B2 Linear b ideogram b170
0100B3 Linear b ideogram b171
0100B4 Linear b ideogram b172
0100B5 Linear b ideogram b173 month
0100B6 Linear b ideogram b174
0100B7 Linear b ideogram b176 tree
0100B8 Linear b ideogram b177
0100B9 Linear b ideogram b178
0100BA Linear b ideogram b179
0100BB Linear b ideogram b180
0100BC Linear b ideogram b181
0100BD Linear b ideogram b182
0100BE Linear b ideogram b183
0100BF Linear b ideogram b184
0100C0 Linear b ideogram b185
0100C1 Linear b ideogram b189
0100C2 Linear b ideogram b190
0100C3 Linear b ideogram b191 helmet
0100C4 Linear b ideogram b220 footstool
0100C5 Linear b ideogram b225 bathtub
0100C6 Linear b ideogram b230 spear
0100C7 Linear b ideogram b231 arrow
0100C8 Linear b ideogram b232
0100C9 Linear b ideogram b233 sword
0100CA Linear b ideogram b234
0100CB Linear b ideogram b236
0100CC Linear b ideogram b240 wheeled chariot
0100CD Linear b ideogram b241 chariot
0100CE Linear b ideogram b242 chariot frame
0100CF Linear b ideogram b243 wheel
0100D0 Linear b ideogram b245
0100D1 Linear b ideogram b246
0100D2 Linear b monogram b247 dipte
0100D3 Linear b ideogram b248
0100D4 Linear b ideogram b249
0100D5 Linear b ideogram b251
0100D6 Linear b ideogram b252
0100D7 Linear b ideogram b253
0100D8 Linear b ideogram b254 dart
0100D9 Linear b ideogram b255
0100DA Linear b ideogram b256
0100DB Linear b ideogram b257
0100DC Linear b ideogram b258
0100DD Linear b ideogram b259
0100DE Linear b ideogram vessel b155
0100DF Linear b ideogram vessel b200
0100E0 Linear b ideogram vessel b201
0100E1 Linear b ideogram vessel b202
0100E2 Linear b ideogram vessel b203
0100E3 Linear b ideogram vessel b204
0100E4 Linear b ideogram vessel b205
0100E5 Linear b ideogram vessel b206
0100E6 Linear b ideogram vessel b207
0100E7 Linear b ideogram vessel b208
0100E8 Linear b ideogram vessel b209
0100E9 Linear b ideogram vessel b210
0100EA Linear b ideogram vessel b211
0100EB Linear b ideogram vessel b212
0100EC Linear b ideogram vessel b213
0100ED Linear b ideogram vessel b214
";

pub const NAMES_41: &'static str = "0100EE Linear b ideogram vessel b215
0100EF Linear b ideogram vessel b216
0100F0 Linear b ideogram vessel b217
0100F1 Linear b ideogram vessel b218
0100F2 Linear b ideogram vessel b219
0100F3 Linear b ideogram vessel b221
0100F4 Linear b ideogram vessel b222
0100F5 Linear b ideogram vessel b226
0100F6 Linear b ideogram vessel b227
0100F7 Linear b ideogram vessel b228
0100F8 Linear b ideogram vessel b229
0100F9 Linear b ideogram vessel b250
0100FA Linear b ideogram vessel b305
010100 Aegean word separator line
010101 Aegean word separator dot
010102 Aegean check mark
010107 Aegean number one
010108 Aegean number two
010109 Aegean number three
01010A Aegean number four
01010B Aegean number five
01010C Aegean number six
01010D Aegean number seven
01010E Aegean number eight
01010F Aegean number nine
010110 Aegean number ten
010111 Aegean number twenty
010112 Aegean number thirty
010113 Aegean number forty
010114 Aegean number fifty
010115 Aegean number sixty
010116 Aegean number seventy
010117 Aegean number eighty
010118 Aegean number ninety
010119 Aegean number one hundred
01011A Aegean number two hundred
01011B Aegean number three hundred
01011C Aegean number four hundred
01011D Aegean number five hundred
01011E Aegean number six hundred
01011F Aegean number seven hundred
010120 Aegean number eight hundred
010121 Aegean number nine hundred
010122 Aegean number one thousand
010123 Aegean number two thousand
010124 Aegean number three thousand
010125 Aegean number four thousand
010126 Aegean number five thousand
010127 Aegean number six thousand
010128 Aegean number seven thousand
010129 Aegean number eight thousand
01012A Aegean number nine thousand
01012B Aegean number ten thousand
01012C Aegean number twenty thousand
01012D Aegean number thirty thousand
01012E Aegean number forty thousand
01012F Aegean number fifty thousand
010130 Aegean number sixty thousand
010131 Aegean number seventy thousand
010132 Aegean number eighty thousand
010133 Aegean number ninety thousand
010137 Aegean weight base unit
010138 Aegean weight first subunit
010139 Aegean weight second subunit
01013A Aegean weight third subunit
01013B Aegean weight fourth subunit
01013C Aegean dry measure first subunit
01013D Aegean liquid measure first subunit
01013E Aegean measure second subunit
01013F Aegean measure third subunit
010140 Greek acrophonic attic one quarter
010141 Greek acrophonic attic one half
010142 Greek acrophonic attic one drachma
010143 Greek acrophonic attic five
010144 Greek acrophonic attic fifty
010145 Greek acrophonic attic five hundred
010146 Greek acrophonic attic five thousand
010147 Greek acrophonic attic fifty thousand
010148 Greek acrophonic attic five talents
010149 Greek acrophonic attic ten talents
01014A Greek acrophonic attic fifty talents
01014B Greek acrophonic attic one hundred talents
01014C Greek acrophonic attic five hundred talents
01014D Greek acrophonic attic one thousand talents
01014E Greek acrophonic attic five thousand talents
01014F Greek acrophonic attic five staters
010150 Greek acrophonic attic ten staters
010151 Greek acrophonic attic fifty staters
010152 Greek acrophonic attic one hundred staters
010153 Greek acrophonic attic five hundred staters
010154 Greek acrophonic attic one thousand staters
010155 Greek acrophonic attic ten thousand staters
010156 Greek acrophonic attic fifty thousand staters
010157 Greek acrophonic attic ten mnas
010158 Greek acrophonic heraeum one plethron
010159 Greek acrophonic thespian one
01015A Greek acrophonic hermionian one
01015B Greek acrophonic epidaurean two
01015C Greek acrophonic thespian two
01015D Greek acrophonic cyrenaic two drachmas
01015E Greek acrophonic epidaurean two drachmas
01015F Greek acrophonic troezenian five
010160 Greek acrophonic troezenian ten
010161 Greek acrophonic troezenian ten alternate form
010162 Greek acrophonic hermionian ten
010163 Greek acrophonic messenian ten
010164 Greek acrophonic thespian ten
010165 Greek acrophonic thespian thirty
010166 Greek acrophonic troezenian fifty
010167 Greek acrophonic troezenian fifty alternate form
010168 Greek acrophonic hermionian fifty
010169 Greek acrophonic thespian fifty
01016A Greek acrophonic thespian one hundred
01016B Greek acrophonic thespian three hundred
01016C Greek acrophonic epidaurean five hundred
01016D Greek acrophonic troezenian five hundred
01016E Greek acrophonic thespian five hundred
01016F Greek acrophonic carystian five hundred
010170 Greek acrophonic naxian five hundred
010171 Greek acrophonic thespian one thousand
010172 Greek acrophonic thespian five thousand
010173 Greek acrophonic delphic five mnas
010174 Greek acrophonic stratian fifty mnas
010175 Greek one half sign
010176 Greek one half sign alternate form
010177 Greek two thirds sign
010178 Greek three quarters sign
010179 Greek year sign
01017A Greek talent sign
01017B Greek drachma sign
01017C Greek obol sign
01017D Greek two obols sign
01017E Greek three obols sign
01017F Greek four obols sign
010180 Greek five obols sign
010181 Greek metretes sign
010182 Greek kyathos base sign
010183 Greek litra sign
010184 Greek ounkia sign
010185 Greek xestes sign
010186 Greek artabe sign
010187 Greek aroura sign
010188 Greek gramma sign
010189 Greek tryblion base sign
01018A Greek zero sign
01018B Greek one quarter sign
01018C Greek sinusoid sign
01018D Greek indiction sign
01018E Nomisma sign
010190 Roman sextans sign
010191 Roman uncia sign
010192 Roman semuncia sign
010193 Roman sextula sign
010194 Roman dimidia sextula sign
010195 Roman siliqua sign
010196 Roman denarius sign
010197 Roman quinarius sign
010198 Roman sestertius sign
010199 Roman dupondius sign
01019A Roman as sign
01019B Roman centurial sign
01019C Ascia symbol
0101A0 Greek symbol tau rho
0101D0 Phaistos disc sign pedestrian
0101D1 Phaistos disc sign plumed head
0101D2 Phaistos disc sign tattooed head
0101D3 Phaistos disc sign captive
0101D4 Phaistos disc sign child
0101D5 Phaistos disc sign woman
0101D6 Phaistos disc sign helmet
0101D7 Phaistos disc sign gauntlet
0101D8 Phaistos disc sign tiara
0101D9 Phaistos disc sign arrow
0101DA Phaistos disc sign bow
0101DB Phaistos disc sign shield
0101DC Phaistos disc sign club
0101DD Phaistos disc sign manacles
0101DE Phaistos disc sign mattock
0101DF Phaistos disc sign saw
0101E0 Phaistos disc sign lid
0101E1 Phaistos disc sign boomerang
0101E2 Phaistos disc sign carpentry plane
0101E3 Phaistos disc sign dolium
0101E4 Phaistos disc sign comb
0101E5 Phaistos disc sign sling
0101E6 Phaistos disc sign column
0101E7 Phaistos disc sign beehive
0101E8 Phaistos disc sign ship
0101E9 Phaistos disc sign horn
0101EA Phaistos disc sign hide
0101EB Phaistos disc sign bulls leg
0101EC Phaistos disc sign cat
0101ED Phaistos disc sign ram
0101EE Phaistos disc sign eagle
0101EF Phaistos disc sign dove
0101F0 Phaistos disc sign tunny
0101F1 Phaistos disc sign bee
0101F2 Phaistos disc sign plane tree
0101F3 Phaistos disc sign vine
0101F4 Phaistos disc sign papyrus
0101F5 Phaistos disc sign rosette
0101F6 Phaistos disc sign lily
0101F7 Phaistos disc sign ox back
0101F8 Phaistos disc sign flute
0101F9 Phaistos disc sign grater
0101FA Phaistos disc sign strainer
0101FB Phaistos disc sign small axe
0101FC Phaistos disc sign wavy band
0101FD Phaistos disc sign combining oblique stroke
010280 Lycian letter a
010281 Lycian letter e
010282 Lycian letter b
010283 Lycian letter bh
010284 Lycian letter g
010285 Lycian letter d
010286 Lycian letter i
010287 Lycian letter w
010288 Lycian letter z
010289 Lycian letter th
01028A Lycian letter j
01028B Lycian letter k
01028C Lycian letter q
01028D Lycian letter l
01028E Lycian letter m
01028F Lycian letter n
010290 Lycian letter mm
010291 Lycian letter nn
010292 Lycian letter u
010293 Lycian letter p
010294 Lycian letter kk
010295 Lycian letter r
010296 Lycian letter s
010297 Lycian letter t
010298 Lycian letter tt
010299 Lycian letter an
01029A Lycian letter en
01029B Lycian letter h
01029C Lycian letter x
0102A0 Carian letter a
0102A1 Carian letter p2
0102A2 Carian letter d
0102A3 Carian letter l
0102A4 Carian letter uuu
0102A5 Carian letter r
0102A6 Carian letter ld
0102A7 Carian letter a2
0102A8 Carian letter q
0102A9 Carian letter b
0102AA Carian letter m
0102AB Carian letter o
0102AC Carian letter d2
0102AD Carian letter t
0102AE Carian letter sh
0102AF Carian letter sh2
0102B0 Carian letter s
0102B1 Carian letter c-18
0102B2 Carian letter u
0102B3 Carian letter nn
0102B4 Carian letter x
0102B5 Carian letter n
0102B6 Carian letter tt2
0102B7 Carian letter p
0102B8 Carian letter ss
0102B9 Carian letter i
0102BA Carian letter e
0102BB Carian letter uuuu
0102BC Carian letter k
0102BD Carian letter k2
0102BE Carian letter nd
0102BF Carian letter uu
0102C0 Carian letter g
0102C1 Carian letter g2
0102C2 Carian letter st
0102C3 Carian letter st2
0102C4 Carian letter ng
0102C5 Carian letter ii
0102C6 Carian letter c-39
0102C7 Carian letter tt
0102C8 Carian letter uuu2
0102C9 Carian letter rr
0102CA Carian letter mb
0102CB Carian letter mb2
0102CC Carian letter mb3
0102CD Carian letter mb4
0102CE Carian letter ld2
0102CF Carian letter e2
0102D0 Carian letter uuu3
0102E0 Coptic epact thousands mark
0102E1 Coptic epact digit one
0102E2 Coptic epact digit two
0102E3 Coptic epact digit three
0102E4 Coptic epact digit four
0102E5 Coptic epact digit five
0102E6 Coptic epact digit six
0102E7 Coptic epact digit seven
0102E8 Coptic epact digit eight
0102E9 Coptic epact digit nine
0102EA Coptic epact number ten
0102EB Coptic epact number twenty
0102EC Coptic epact number thirty
0102ED Coptic epact number forty
0102EE Coptic epact number fifty
0102EF Coptic epact number sixty
0102F0 Coptic epact number seventy
0102F1 Coptic epact number eighty
0102F2 Coptic epact number ninety
0102F3 Coptic epact number one hundred
0102F4 Coptic epact number two hundred
0102F5 Coptic epact number three hundred
0102F6 Coptic epact number four hundred
0102F7 Coptic epact number five hundred
0102F8 Coptic epact number six hundred
0102F9 Coptic epact number seven hundred
0102FA Coptic epact number eight hundred
0102FB Coptic epact number nine hundred
010300 Old italic letter a
010301 Old italic letter be
010302 Old italic letter ke
010303 Old italic letter de
010304 Old italic letter e
010305 Old italic letter ve
010306 Old italic letter ze
010307 Old italic letter he
010308 Old italic letter the
010309 Old italic letter i
01030A Old italic letter ka
01030B Old italic letter el
01030C Old italic letter em
01030D Old italic letter en
01030E Old italic letter esh
01030F Old italic letter o
010310 Old italic letter pe
010311 Old italic letter she
010312 Old italic letter ku
010313 Old italic letter er
010314 Old italic letter es
010315 Old italic letter te
010316 Old italic letter u
010317 Old italic letter eks
010318 Old italic letter phe
010319 Old italic letter khe
01031A Old italic letter ef
01031B Old italic letter ers
01031C Old italic letter che
01031D Old italic letter ii
01031E Old italic letter uu
01031F Old italic letter ess
010320 Old italic numeral one
010321 Old italic numeral five
010322 Old italic numeral ten
010323 Old italic numeral fifty
01032D Old italic letter ye
01032E Old italic letter northern tse
01032F Old italic letter southern tse
010330 Gothic letter ahsa
010331 Gothic letter bairkan
010332 Gothic letter giba
010333 Gothic letter dags
010334 Gothic letter aihvus
010335 Gothic letter qairthra
010336 Gothic letter iuja
010337 Gothic letter hagl
010338 Gothic letter thiuth
010339 Gothic letter eis
01033A Gothic letter kusma
01033B Gothic letter lagus
01033C Gothic letter manna
01033D Gothic letter nauths
01033E Gothic letter jer
01033F Gothic letter urus
010340 Gothic letter pairthra
010341 Gothic letter ninety
010342 Gothic letter raida
010343 Gothic letter sauil
010344 Gothic letter teiws
010345 Gothic letter winja
010346 Gothic letter faihu
010347 Gothic letter iggws
010348 Gothic letter hwair
010349 Gothic letter othal
01034A Gothic letter nine hundred
010350 Old permic letter an
010351 Old permic letter bur
010352 Old permic letter gai
010353 Old permic letter doi
010354 Old permic letter e
010355 Old permic letter zhoi
010356 Old permic letter dzhoi
010357 Old permic letter zata
010358 Old permic letter dzita
010359 Old permic letter i
01035A Old permic letter koke
01035B Old permic letter lei
01035C Old permic letter menoe
01035D Old permic letter nenoe
01035E Old permic letter vooi
01035F Old permic letter peei
010360 Old permic letter rei
010361 Old permic letter sii
010362 Old permic letter tai
010363 Old permic letter u
010364 Old permic letter chery
010365 Old permic letter shooi
010366 Old permic letter shchooi
010367 Old permic letter yry
010368 Old permic letter yeru
010369 Old permic letter o
01036A Old permic letter oo
01036B Old permic letter ef
01036C Old permic letter ha
01036D Old permic letter tsiu
01036E Old permic letter ver
01036F Old permic letter yer
010370 Old permic letter yeri
010371 Old permic letter yat
010372 Old permic letter ie
010373 Old permic letter yu
010374 Old permic letter ya
010375 Old permic letter ia
010376 Combining old permic letter an
010377 Combining old permic letter doi
010378 Combining old permic letter zata
010379 Combining old permic letter nenoe
01037A Combining old permic letter sii
010380 Ugaritic letter alpa
010381 Ugaritic letter beta
010382 Ugaritic letter gamla
010383 Ugaritic letter kha
010384 Ugaritic letter delta
010385 Ugaritic letter ho
010386 Ugaritic letter wo
010387 Ugaritic letter zeta
010388 Ugaritic letter hota
010389 Ugaritic letter tet
01038A Ugaritic letter yod
01038B Ugaritic letter kaf
01038C Ugaritic letter shin
01038D Ugaritic letter lamda
01038E Ugaritic letter mem
01038F Ugaritic letter dhal
010390 Ugaritic letter nun
010391 Ugaritic letter zu
010392 Ugaritic letter samka
010393 Ugaritic letter ain
010394 Ugaritic letter pu
010395 Ugaritic letter sade
010396 Ugaritic letter qopa
010397 Ugaritic letter rasha
010398 Ugaritic letter thanna
";

pub const NAMES_42: &'static str = "010399 Ugaritic letter ghain
01039A Ugaritic letter to
01039B Ugaritic letter i
01039C Ugaritic letter u
01039D Ugaritic letter ssu
01039F Ugaritic word divider
0103A0 Old persian sign a
0103A1 Old persian sign i
0103A2 Old persian sign u
0103A3 Old persian sign ka
0103A4 Old persian sign ku
0103A5 Old persian sign ga
0103A6 Old persian sign gu
0103A7 Old persian sign xa
0103A8 Old persian sign ca
0103A9 Old persian sign ja
0103AA Old persian sign ji
0103AB Old persian sign ta
0103AC Old persian sign tu
0103AD Old persian sign da
0103AE Old persian sign di
0103AF Old persian sign du
0103B0 Old persian sign tha
0103B1 Old persian sign pa
0103B2 Old persian sign ba
0103B3 Old persian sign fa
0103B4 Old persian sign na
0103B5 Old persian sign nu
0103B6 Old persian sign ma
0103B7 Old persian sign mi
0103B8 Old persian sign mu
0103B9 Old persian sign ya
0103BA Old persian sign va
0103BB Old persian sign vi
0103BC Old persian sign ra
0103BD Old persian sign ru
0103BE Old persian sign la
0103BF Old persian sign sa
0103C0 Old persian sign za
0103C1 Old persian sign sha
0103C2 Old persian sign ssa
0103C3 Old persian sign ha
0103C8 Old persian sign auramazdaa
0103C9 Old persian sign auramazdaa-2
0103CA Old persian sign auramazdaaha
0103CB Old persian sign xshaayathiya
0103CC Old persian sign dahyaaush
0103CD Old persian sign dahyaaush-2
0103CE Old persian sign baga
0103CF Old persian sign buumish
0103D0 Old persian word divider
0103D1 Old persian number one
0103D2 Old persian number two
0103D3 Old persian number ten
0103D4 Old persian number twenty
0103D5 Old persian number hundred
010400 Deseret capital letter long i
010401 Deseret capital letter long e
010402 Deseret capital letter long a
010403 Deseret capital letter long ah
010404 Deseret capital letter long o
010405 Deseret capital letter long oo
010406 Deseret capital letter short i
010407 Deseret capital letter short e
010408 Deseret capital letter short a
010409 Deseret capital letter short ah
01040A Deseret capital letter short o
01040B Deseret capital letter short oo
01040C Deseret capital letter ay
01040D Deseret capital letter ow
01040E Deseret capital letter wu
01040F Deseret capital letter yee
010410 Deseret capital letter h
010411 Deseret capital letter pee
010412 Deseret capital letter bee
010413 Deseret capital letter tee
010414 Deseret capital letter dee
010415 Deseret capital letter chee
010416 Deseret capital letter jee
010417 Deseret capital letter kay
010418 Deseret capital letter gay
010419 Deseret capital letter ef
01041A Deseret capital letter vee
01041B Deseret capital letter eth
01041C Deseret capital letter thee
01041D Deseret capital letter es
01041E Deseret capital letter zee
01041F Deseret capital letter esh
010420 Deseret capital letter zhee
010421 Deseret capital letter er
010422 Deseret capital letter el
010423 Deseret capital letter em
010424 Deseret capital letter en
010425 Deseret capital letter eng
010426 Deseret capital letter oi
010427 Deseret capital letter ew
010428 Deseret small letter long i
010429 Deseret small letter long e
01042A Deseret small letter long a
01042B Deseret small letter long ah
01042C Deseret small letter long o
01042D Deseret small letter long oo
01042E Deseret small letter short i
01042F Deseret small letter short e
010430 Deseret small letter short a
010431 Deseret small letter short ah
010432 Deseret small letter short o
010433 Deseret small letter short oo
010434 Deseret small letter ay
010435 Deseret small letter ow
010436 Deseret small letter wu
010437 Deseret small letter yee
010438 Deseret small letter h
010439 Deseret small letter pee
01043A Deseret small letter bee
01043B Deseret small letter tee
01043C Deseret small letter dee
01043D Deseret small letter chee
01043E Deseret small letter jee
01043F Deseret small letter kay
010440 Deseret small letter gay
010441 Deseret small letter ef
010442 Deseret small letter vee
010443 Deseret small letter eth
010444 Deseret small letter thee
010445 Deseret small letter es
010446 Deseret small letter zee
010447 Deseret small letter esh
010448 Deseret small letter zhee
010449 Deseret small letter er
01044A Deseret small letter el
01044B Deseret small letter em
01044C Deseret small letter en
01044D Deseret small letter eng
01044E Deseret small letter oi
01044F Deseret small letter ew
010450 Shavian letter peep
010451 Shavian letter tot
010452 Shavian letter kick
010453 Shavian letter fee
010454 Shavian letter thigh
010455 Shavian letter so
010456 Shavian letter sure
010457 Shavian letter church
010458 Shavian letter yea
010459 Shavian letter hung
01045A Shavian letter bib
01045B Shavian letter dead
01045C Shavian letter gag
01045D Shavian letter vow
01045E Shavian letter they
01045F Shavian letter zoo
010460 Shavian letter measure
010461 Shavian letter judge
010462 Shavian letter woe
010463 Shavian letter ha-ha
010464 Shavian letter loll
010465 Shavian letter mime
010466 Shavian letter if
010467 Shavian letter egg
010468 Shavian letter ash
010469 Shavian letter ado
01046A Shavian letter on
01046B Shavian letter wool
01046C Shavian letter out
01046D Shavian letter ah
01046E Shavian letter roar
01046F Shavian letter nun
010470 Shavian letter eat
010471 Shavian letter age
010472 Shavian letter ice
010473 Shavian letter up
010474 Shavian letter oak
010475 Shavian letter ooze
010476 Shavian letter oil
010477 Shavian letter awe
010478 Shavian letter are
010479 Shavian letter or
01047A Shavian letter air
01047B Shavian letter err
01047C Shavian letter array
01047D Shavian letter ear
01047E Shavian letter ian
01047F Shavian letter yew
010480 Osmanya letter alef
010481 Osmanya letter ba
010482 Osmanya letter ta
010483 Osmanya letter ja
010484 Osmanya letter xa
010485 Osmanya letter kha
010486 Osmanya letter deel
010487 Osmanya letter ra
010488 Osmanya letter sa
010489 Osmanya letter shiin
01048A Osmanya letter dha
01048B Osmanya letter cayn
01048C Osmanya letter ga
01048D Osmanya letter fa
01048E Osmanya letter qaaf
01048F Osmanya letter kaaf
010490 Osmanya letter laan
010491 Osmanya letter miin
010492 Osmanya letter nuun
010493 Osmanya letter waw
010494 Osmanya letter ha
010495 Osmanya letter ya
010496 Osmanya letter a
010497 Osmanya letter e
010498 Osmanya letter i
010499 Osmanya letter o
01049A Osmanya letter u
01049B Osmanya letter aa
01049C Osmanya letter ee
01049D Osmanya letter oo
0104A0 Osmanya digit zero
0104A1 Osmanya digit one
0104A2 Osmanya digit two
0104A3 Osmanya digit three
0104A4 Osmanya digit four
0104A5 Osmanya digit five
0104A6 Osmanya digit six
0104A7 Osmanya digit seven
0104A8 Osmanya digit eight
0104A9 Osmanya digit nine
0104B0 Osage capital letter a
0104B1 Osage capital letter ai
0104B2 Osage capital letter ain
0104B3 Osage capital letter ah
0104B4 Osage capital letter bra
0104B5 Osage capital letter cha
0104B6 Osage capital letter ehcha
0104B7 Osage capital letter e
0104B8 Osage capital letter ein
0104B9 Osage capital letter ha
0104BA Osage capital letter hya
0104BB Osage capital letter i
0104BC Osage capital letter ka
0104BD Osage capital letter ehka
0104BE Osage capital letter kya
0104BF Osage capital letter la
0104C0 Osage capital letter ma
0104C1 Osage capital letter na
0104C2 Osage capital letter o
0104C3 Osage capital letter oin
0104C4 Osage capital letter pa
0104C5 Osage capital letter ehpa
0104C6 Osage capital letter sa
0104C7 Osage capital letter sha
0104C8 Osage capital letter ta
0104C9 Osage capital letter ehta
0104CA Osage capital letter tsa
0104CB Osage capital letter ehtsa
0104CC Osage capital letter tsha
0104CD Osage capital letter dha
0104CE Osage capital letter u
0104CF Osage capital letter wa
0104D0 Osage capital letter kha
0104D1 Osage capital letter gha
0104D2 Osage capital letter za
0104D3 Osage capital letter zha
0104D8 Osage small letter a
0104D9 Osage small letter ai
0104DA Osage small letter ain
0104DB Osage small letter ah
0104DC Osage small letter bra
0104DD Osage small letter cha
0104DE Osage small letter ehcha
0104DF Osage small letter e
0104E0 Osage small letter ein
0104E1 Osage small letter ha
0104E2 Osage small letter hya
0104E3 Osage small letter i
0104E4 Osage small letter ka
0104E5 Osage small letter ehka
0104E6 Osage small letter kya
0104E7 Osage small letter la
0104E8 Osage small letter ma
0104E9 Osage small letter na
0104EA Osage small letter o
0104EB Osage small letter oin
0104EC Osage small letter pa
0104ED Osage small letter ehpa
0104EE Osage small letter sa
0104EF Osage small letter sha
0104F0 Osage small letter ta
0104F1 Osage small letter ehta
0104F2 Osage small letter tsa
0104F3 Osage small letter ehtsa
0104F4 Osage small letter tsha
0104F5 Osage small letter dha
0104F6 Osage small letter u
0104F7 Osage small letter wa
0104F8 Osage small letter kha
0104F9 Osage small letter gha
0104FA Osage small letter za
0104FB Osage small letter zha
010500 Elbasan letter a
010501 Elbasan letter be
010502 Elbasan letter ce
010503 Elbasan letter che
010504 Elbasan letter de
010505 Elbasan letter nde
010506 Elbasan letter dhe
010507 Elbasan letter ei
010508 Elbasan letter e
010509 Elbasan letter fe
01050A Elbasan letter ge
01050B Elbasan letter gje
01050C Elbasan letter he
01050D Elbasan letter i
01050E Elbasan letter je
01050F Elbasan letter ke
010510 Elbasan letter le
010511 Elbasan letter lle
010512 Elbasan letter me
010513 Elbasan letter ne
010514 Elbasan letter na
010515 Elbasan letter nje
010516 Elbasan letter o
010517 Elbasan letter pe
010518 Elbasan letter qe
010519 Elbasan letter re
01051A Elbasan letter rre
01051B Elbasan letter se
01051C Elbasan letter she
01051D Elbasan letter te
01051E Elbasan letter the
01051F Elbasan letter u
010520 Elbasan letter ve
010521 Elbasan letter xe
010522 Elbasan letter y
010523 Elbasan letter ze
010524 Elbasan letter zhe
010525 Elbasan letter ghe
010526 Elbasan letter ghamma
010527 Elbasan letter khe
010530 Caucasian albanian letter alt
010531 Caucasian albanian letter bet
010532 Caucasian albanian letter gim
010533 Caucasian albanian letter dat
010534 Caucasian albanian letter eb
010535 Caucasian albanian letter zarl
010536 Caucasian albanian letter eyn
010537 Caucasian albanian letter zhil
010538 Caucasian albanian letter tas
010539 Caucasian albanian letter cha
01053A Caucasian albanian letter yowd
01053B Caucasian albanian letter zha
01053C Caucasian albanian letter irb
01053D Caucasian albanian letter sha
01053E Caucasian albanian letter lan
01053F Caucasian albanian letter inya
010540 Caucasian albanian letter xeyn
010541 Caucasian albanian letter dyan
010542 Caucasian albanian letter car
010543 Caucasian albanian letter jhox
010544 Caucasian albanian letter kar
010545 Caucasian albanian letter lyit
010546 Caucasian albanian letter heyt
010547 Caucasian albanian letter qay
010548 Caucasian albanian letter aor
010549 Caucasian albanian letter choy
01054A Caucasian albanian letter chi
01054B Caucasian albanian letter cyay
01054C Caucasian albanian letter maq
01054D Caucasian albanian letter qar
01054E Caucasian albanian letter nowc
01054F Caucasian albanian letter dzyay
010550 Caucasian albanian letter shak
010551 Caucasian albanian letter jayn
010552 Caucasian albanian letter on
010553 Caucasian albanian letter tyay
010554 Caucasian albanian letter fam
010555 Caucasian albanian letter dzay
010556 Caucasian albanian letter chat
010557 Caucasian albanian letter pen
010558 Caucasian albanian letter gheys
010559 Caucasian albanian letter rat
01055A Caucasian albanian letter seyk
01055B Caucasian albanian letter veyz
01055C Caucasian albanian letter tiwr
01055D Caucasian albanian letter shoy
01055E Caucasian albanian letter iwn
01055F Caucasian albanian letter cyaw
010560 Caucasian albanian letter cayn
010561 Caucasian albanian letter yayd
010562 Caucasian albanian letter piwr
010563 Caucasian albanian letter kiw
01056F Caucasian albanian citation mark
010570 Vithkuqi capital letter a
010571 Vithkuqi capital letter bbe
010572 Vithkuqi capital letter be
010573 Vithkuqi capital letter ce
010574 Vithkuqi capital letter che
010575 Vithkuqi capital letter de
010576 Vithkuqi capital letter dhe
010577 Vithkuqi capital letter ei
010578 Vithkuqi capital letter e
010579 Vithkuqi capital letter fe
01057A Vithkuqi capital letter ga
01057C Vithkuqi capital letter ha
01057D Vithkuqi capital letter hha
01057E Vithkuqi capital letter i
01057F Vithkuqi capital letter ije
010580 Vithkuqi capital letter je
010581 Vithkuqi capital letter ka
010582 Vithkuqi capital letter la
010583 Vithkuqi capital letter lla
010584 Vithkuqi capital letter me
010585 Vithkuqi capital letter ne
010586 Vithkuqi capital letter nje
010587 Vithkuqi capital letter o
010588 Vithkuqi capital letter pe
010589 Vithkuqi capital letter qa
01058A Vithkuqi capital letter re
01058C Vithkuqi capital letter se
01058D Vithkuqi capital letter she
01058E Vithkuqi capital letter te
01058F Vithkuqi capital letter the
010590 Vithkuqi capital letter u
010591 Vithkuqi capital letter ve
010592 Vithkuqi capital letter xe
010594 Vithkuqi capital letter y
010595 Vithkuqi capital letter ze
010597 Vithkuqi small letter a
010598 Vithkuqi small letter bbe
010599 Vithkuqi small letter be
01059A Vithkuqi small letter ce
01059B Vithkuqi small letter che
01059C Vithkuqi small letter de
01059D Vithkuqi small letter dhe
01059E Vithkuqi small letter ei
01059F Vithkuqi small letter e
0105A0 Vithkuqi small letter fe
0105A1 Vithkuqi small letter ga
0105A3 Vithkuqi small letter ha
0105A4 Vithkuqi small letter hha
0105A5 Vithkuqi small letter i
0105A6 Vithkuqi small letter ije
0105A7 Vithkuqi small letter je
0105A8 Vithkuqi small letter ka
0105A9 Vithkuqi small letter la
0105AA Vithkuqi small letter lla
0105AB Vithkuqi small letter me
0105AC Vithkuqi small letter ne
0105AD Vithkuqi small letter nje
0105AE Vithkuqi small letter o
0105AF Vithkuqi small letter pe
0105B0 Vithkuqi small letter qa
0105B1 Vithkuqi small letter re
0105B3 Vithkuqi small letter se
0105B4 Vithkuqi small letter she
0105B5 Vithkuqi small letter te
0105B6 Vithkuqi small letter the
0105B7 Vithkuqi small letter u
";

pub const NAMES_43: &'static str = "0105B8 Vithkuqi small letter ve
0105B9 Vithkuqi small letter xe
0105BB Vithkuqi small letter y
0105BC Vithkuqi small letter ze
010600 Linear a sign ab001
010601 Linear a sign ab002
010602 Linear a sign ab003
010603 Linear a sign ab004
010604 Linear a sign ab005
010605 Linear a sign ab006
010606 Linear a sign ab007
010607 Linear a sign ab008
010608 Linear a sign ab009
010609 Linear a sign ab010
01060A Linear a sign ab011
01060B Linear a sign ab013
01060C Linear a sign ab016
01060D Linear a sign ab017
01060E Linear a sign ab020
01060F Linear a sign ab021
010610 Linear a sign ab021f
010611 Linear a sign ab021m
010612 Linear a sign ab022
010613 Linear a sign ab022f
010614 Linear a sign ab022m
010615 Linear a sign ab023
010616 Linear a sign ab023m
010617 Linear a sign ab024
010618 Linear a sign ab026
010619 Linear a sign ab027
01061A Linear a sign ab028
01061B Linear a sign a028b
01061C Linear a sign ab029
01061D Linear a sign ab030
01061E Linear a sign ab031
01061F Linear a sign ab034
010620 Linear a sign ab037
010621 Linear a sign ab038
010622 Linear a sign ab039
010623 Linear a sign ab040
010624 Linear a sign ab041
010625 Linear a sign ab044
010626 Linear a sign ab045
010627 Linear a sign ab046
010628 Linear a sign ab047
010629 Linear a sign ab048
01062A Linear a sign ab049
01062B Linear a sign ab050
01062C Linear a sign ab051
01062D Linear a sign ab053
01062E Linear a sign ab054
01062F Linear a sign ab055
010630 Linear a sign ab056
010631 Linear a sign ab057
010632 Linear a sign ab058
010633 Linear a sign ab059
010634 Linear a sign ab060
010635 Linear a sign ab061
010636 Linear a sign ab065
010637 Linear a sign ab066
010638 Linear a sign ab067
010639 Linear a sign ab069
01063A Linear a sign ab070
01063B Linear a sign ab073
01063C Linear a sign ab074
01063D Linear a sign ab076
01063E Linear a sign ab077
01063F Linear a sign ab078
010640 Linear a sign ab079
010641 Linear a sign ab080
010642 Linear a sign ab081
010643 Linear a sign ab082
010644 Linear a sign ab085
010645 Linear a sign ab086
010646 Linear a sign ab087
010647 Linear a sign a100-102
010648 Linear a sign ab118
010649 Linear a sign ab120
01064A Linear a sign a120b
01064B Linear a sign ab122
01064C Linear a sign ab123
01064D Linear a sign ab131a
01064E Linear a sign ab131b
01064F Linear a sign a131c
010650 Linear a sign ab164
010651 Linear a sign ab171
010652 Linear a sign ab180
010653 Linear a sign ab188
010654 Linear a sign ab191
010655 Linear a sign a301
010656 Linear a sign a302
010657 Linear a sign a303
010658 Linear a sign a304
010659 Linear a sign a305
01065A Linear a sign a306
01065B Linear a sign a307
01065C Linear a sign a308
01065D Linear a sign a309a
01065E Linear a sign a309b
01065F Linear a sign a309c
010660 Linear a sign a310
010661 Linear a sign a311
010662 Linear a sign a312
010663 Linear a sign a313a
010664 Linear a sign a313b
010665 Linear a sign a313c
010666 Linear a sign a314
010667 Linear a sign a315
010668 Linear a sign a316
010669 Linear a sign a317
01066A Linear a sign a318
01066B Linear a sign a319
01066C Linear a sign a320
01066D Linear a sign a321
01066E Linear a sign a322
01066F Linear a sign a323
010670 Linear a sign a324
010671 Linear a sign a325
010672 Linear a sign a326
010673 Linear a sign a327
010674 Linear a sign a328
010675 Linear a sign a329
010676 Linear a sign a330
010677 Linear a sign a331
010678 Linear a sign a332
010679 Linear a sign a333
01067A Linear a sign a334
01067B Linear a sign a335
01067C Linear a sign a336
01067D Linear a sign a337
01067E Linear a sign a338
01067F Linear a sign a339
010680 Linear a sign a340
010681 Linear a sign a341
010682 Linear a sign a342
010683 Linear a sign a343
010684 Linear a sign a344
010685 Linear a sign a345
010686 Linear a sign a346
010687 Linear a sign a347
010688 Linear a sign a348
010689 Linear a sign a349
01068A Linear a sign a350
01068B Linear a sign a351
01068C Linear a sign a352
01068D Linear a sign a353
01068E Linear a sign a354
01068F Linear a sign a355
010690 Linear a sign a356
010691 Linear a sign a357
010692 Linear a sign a358
010693 Linear a sign a359
010694 Linear a sign a360
010695 Linear a sign a361
010696 Linear a sign a362
010697 Linear a sign a363
010698 Linear a sign a364
010699 Linear a sign a365
01069A Linear a sign a366
01069B Linear a sign a367
01069C Linear a sign a368
01069D Linear a sign a369
01069E Linear a sign a370
01069F Linear a sign a371
0106A0 Linear a sign a400-vas
0106A1 Linear a sign a401-vas
0106A2 Linear a sign a402-vas
0106A3 Linear a sign a403-vas
0106A4 Linear a sign a404-vas
0106A5 Linear a sign a405-vas
0106A6 Linear a sign a406-vas
0106A7 Linear a sign a407-vas
0106A8 Linear a sign a408-vas
0106A9 Linear a sign a409-vas
0106AA Linear a sign a410-vas
0106AB Linear a sign a411-vas
0106AC Linear a sign a412-vas
0106AD Linear a sign a413-vas
0106AE Linear a sign a414-vas
0106AF Linear a sign a415-vas
0106B0 Linear a sign a416-vas
0106B1 Linear a sign a417-vas
0106B2 Linear a sign a418-vas
0106B3 Linear a sign a501
0106B4 Linear a sign a502
0106B5 Linear a sign a503
0106B6 Linear a sign a504
0106B7 Linear a sign a505
0106B8 Linear a sign a506
0106B9 Linear a sign a508
0106BA Linear a sign a509
0106BB Linear a sign a510
0106BC Linear a sign a511
0106BD Linear a sign a512
0106BE Linear a sign a513
0106BF Linear a sign a515
0106C0 Linear a sign a516
0106C1 Linear a sign a520
0106C2 Linear a sign a521
0106C3 Linear a sign a523
0106C4 Linear a sign a524
0106C5 Linear a sign a525
0106C6 Linear a sign a526
0106C7 Linear a sign a527
0106C8 Linear a sign a528
0106C9 Linear a sign a529
0106CA Linear a sign a530
0106CB Linear a sign a531
0106CC Linear a sign a532
0106CD Linear a sign a534
0106CE Linear a sign a535
0106CF Linear a sign a536
0106D0 Linear a sign a537
0106D1 Linear a sign a538
0106D2 Linear a sign a539
0106D3 Linear a sign a540
0106D4 Linear a sign a541
0106D5 Linear a sign a542
0106D6 Linear a sign a545
0106D7 Linear a sign a547
0106D8 Linear a sign a548
0106D9 Linear a sign a549
0106DA Linear a sign a550
0106DB Linear a sign a551
0106DC Linear a sign a552
0106DD Linear a sign a553
0106DE Linear a sign a554
0106DF Linear a sign a555
0106E0 Linear a sign a556
0106E1 Linear a sign a557
0106E2 Linear a sign a559
0106E3 Linear a sign a563
0106E4 Linear a sign a564
0106E5 Linear a sign a565
0106E6 Linear a sign a566
0106E7 Linear a sign a568
0106E8 Linear a sign a569
0106E9 Linear a sign a570
0106EA Linear a sign a571
0106EB Linear a sign a572
0106EC Linear a sign a573
0106ED Linear a sign a574
0106EE Linear a sign a575
0106EF Linear a sign a576
0106F0 Linear a sign a577
0106F1 Linear a sign a578
0106F2 Linear a sign a579
0106F3 Linear a sign a580
0106F4 Linear a sign a581
0106F5 Linear a sign a582
0106F6 Linear a sign a583
0106F7 Linear a sign a584
0106F8 Linear a sign a585
0106F9 Linear a sign a586
0106FA Linear a sign a587
0106FB Linear a sign a588
0106FC Linear a sign a589
0106FD Linear a sign a591
0106FE Linear a sign a592
0106FF Linear a sign a594
010700 Linear a sign a595
010701 Linear a sign a596
010702 Linear a sign a598
010703 Linear a sign a600
010704 Linear a sign a601
010705 Linear a sign a602
010706 Linear a sign a603
010707 Linear a sign a604
010708 Linear a sign a606
010709 Linear a sign a608
01070A Linear a sign a609
01070B Linear a sign a610
01070C Linear a sign a611
01070D Linear a sign a612
01070E Linear a sign a613
01070F Linear a sign a614
010710 Linear a sign a615
010711 Linear a sign a616
010712 Linear a sign a617
010713 Linear a sign a618
010714 Linear a sign a619
010715 Linear a sign a620
010716 Linear a sign a621
010717 Linear a sign a622
010718 Linear a sign a623
010719 Linear a sign a624
01071A Linear a sign a626
01071B Linear a sign a627
01071C Linear a sign a628
01071D Linear a sign a629
01071E Linear a sign a634
01071F Linear a sign a637
010720 Linear a sign a638
010721 Linear a sign a640
010722 Linear a sign a642
010723 Linear a sign a643
010724 Linear a sign a644
010725 Linear a sign a645
010726 Linear a sign a646
010727 Linear a sign a648
010728 Linear a sign a649
010729 Linear a sign a651
01072A Linear a sign a652
01072B Linear a sign a653
01072C Linear a sign a654
01072D Linear a sign a655
01072E Linear a sign a656
01072F Linear a sign a657
010730 Linear a sign a658
010731 Linear a sign a659
010732 Linear a sign a660
010733 Linear a sign a661
010734 Linear a sign a662
010735 Linear a sign a663
010736 Linear a sign a664
010740 Linear a sign a701 a
010741 Linear a sign a702 b
010742 Linear a sign a703 d
010743 Linear a sign a704 e
010744 Linear a sign a705 f
010745 Linear a sign a706 h
010746 Linear a sign a707 j
010747 Linear a sign a708 k
010748 Linear a sign a709 l
010749 Linear a sign a709-2 l2
01074A Linear a sign a709-3 l3
01074B Linear a sign a709-4 l4
01074C Linear a sign a709-6 l6
01074D Linear a sign a710 w
01074E Linear a sign a711 x
01074F Linear a sign a712 y
010750 Linear a sign a713 omega
010751 Linear a sign a714 abb
010752 Linear a sign a715 bb
010753 Linear a sign a717 dd
010754 Linear a sign a726 eyyy
010755 Linear a sign a732 je
010760 Linear a sign a800
010761 Linear a sign a801
010762 Linear a sign a802
010763 Linear a sign a803
010764 Linear a sign a804
010765 Linear a sign a805
010766 Linear a sign a806
010767 Linear a sign a807
010780 Modifier letter small capital aa
010781 Modifier letter superscript triangular colon
010782 Modifier letter superscript half triangular colon
010783 Modifier letter small ae
010784 Modifier letter small capital b
010785 Modifier letter small b with hook
010787 Modifier letter small dz digraph
010788 Modifier letter small dz digraph with retroflex hook
010789 Modifier letter small dz digraph with curl
01078A Modifier letter small dezh digraph
01078B Modifier letter small d with tail
01078C Modifier letter small d with hook
01078D Modifier letter small d with hook and tail
01078E Modifier letter small reversed e
01078F Modifier letter small closed reversed open e
010790 Modifier letter small feng digraph
010791 Modifier letter small rams horn
010792 Modifier letter small capital g
010793 Modifier letter small g with hook
010794 Modifier letter small capital g with hook
010795 Modifier letter small h with stroke
010796 Modifier letter small capital h
010797 Modifier letter small heng with hook
010798 Modifier letter small dotless j with stroke and hook
010799 Modifier letter small ls digraph
01079A Modifier letter small lz digraph
01079B Modifier letter small l with belt
01079C Modifier letter small capital l with belt
01079D Modifier letter small l with retroflex hook and belt
01079E Modifier letter small lezh
01079F Modifier letter small lezh with retroflex hook
0107A0 Modifier letter small turned y
0107A1 Modifier letter small turned y with belt
0107A2 Modifier letter small o with stroke
0107A3 Modifier letter small capital oe
0107A4 Modifier letter small closed omega
0107A5 Modifier letter small q
0107A6 Modifier letter small turned r with long leg
0107A7 Modifier letter small turned r with long leg and retroflex hook
0107A8 Modifier letter small r with tail
0107A9 Modifier letter small r with fishhook
0107AA Modifier letter small capital r
0107AB Modifier letter small tc digraph with curl
0107AC Modifier letter small ts digraph
0107AD Modifier letter small ts digraph with retroflex hook
0107AE Modifier letter small tesh digraph
0107AF Modifier letter small t with retroflex hook
0107B0 Modifier letter small v with right hook
0107B2 Modifier letter small capital y
0107B3 Modifier letter glottal stop with stroke
0107B4 Modifier letter reversed glottal stop with stroke
0107B5 Modifier letter bilabial click
0107B6 Modifier letter dental click
0107B7 Modifier letter lateral click
0107B8 Modifier letter alveolar click
0107B9 Modifier letter retroflex click with retroflex hook
0107BA Modifier letter small s with curl
010800 Cypriot syllable a
010801 Cypriot syllable e
010802 Cypriot syllable i
010803 Cypriot syllable o
010804 Cypriot syllable u
010805 Cypriot syllable ja
010808 Cypriot syllable jo
01080A Cypriot syllable ka
01080B Cypriot syllable ke
01080C Cypriot syllable ki
01080D Cypriot syllable ko
01080E Cypriot syllable ku
01080F Cypriot syllable la
010810 Cypriot syllable le
010811 Cypriot syllable li
010812 Cypriot syllable lo
010813 Cypriot syllable lu
010814 Cypriot syllable ma
010815 Cypriot syllable me
010816 Cypriot syllable mi
010817 Cypriot syllable mo
010818 Cypriot syllable mu
010819 Cypriot syllable na
01081A Cypriot syllable ne
01081B Cypriot syllable ni
01081C Cypriot syllable no
01081D Cypriot syllable nu
01081E Cypriot syllable pa
01081F Cypriot syllable pe
010820 Cypriot syllable pi
010821 Cypriot syllable po
010822 Cypriot syllable pu
010823 Cypriot syllable ra
010824 Cypriot syllable re
010825 Cypriot syllable ri
010826 Cypriot syllable ro
010827 Cypriot syllable ru
010828 Cypriot syllable sa
010829 Cypriot syllable se
01082A Cypriot syllable si
01082B Cypriot syllable so
01082C Cypriot syllable su
01082D Cypriot syllable ta
01082E Cypriot syllable te
01082F Cypriot syllable ti
010830 Cypriot syllable to
010831 Cypriot syllable tu
010832 Cypriot syllable wa
010833 Cypriot syllable we
010834 Cypriot syllable wi
010835 Cypriot syllable wo
010837 Cypriot syllable xa
010838 Cypriot syllable xe
01083C Cypriot syllable za
01083F Cypriot syllable zo
010840 Imperial aramaic letter aleph
010841 Imperial aramaic letter beth
010842 Imperial aramaic letter gimel
010843 Imperial aramaic letter daleth
010844 Imperial aramaic letter he
010845 Imperial aramaic letter waw
010846 Imperial aramaic letter zayin
010847 Imperial aramaic letter heth
010848 Imperial aramaic letter teth
010849 Imperial aramaic letter yodh
01084A Imperial aramaic letter kaph
01084B Imperial aramaic letter lamedh
01084C Imperial aramaic letter mem
01084D Imperial aramaic letter nun
01084E Imperial aramaic letter samekh
01084F Imperial aramaic letter ayin
010850 Imperial aramaic letter pe
010851 Imperial aramaic letter sadhe
010852 Imperial aramaic letter qoph
";

pub const NAMES_44: &'static str = "010853 Imperial aramaic letter resh
010854 Imperial aramaic letter shin
010855 Imperial aramaic letter taw
010857 Imperial aramaic section sign
010858 Imperial aramaic number one
010859 Imperial aramaic number two
01085A Imperial aramaic number three
01085B Imperial aramaic number ten
01085C Imperial aramaic number twenty
01085D Imperial aramaic number one hundred
01085E Imperial aramaic number one thousand
01085F Imperial aramaic number ten thousand
010860 Palmyrene letter aleph
010861 Palmyrene letter beth
010862 Palmyrene letter gimel
010863 Palmyrene letter daleth
010864 Palmyrene letter he
010865 Palmyrene letter waw
010866 Palmyrene letter zayin
010867 Palmyrene letter heth
010868 Palmyrene letter teth
010869 Palmyrene letter yodh
01086A Palmyrene letter kaph
01086B Palmyrene letter lamedh
01086C Palmyrene letter mem
01086D Palmyrene letter final nun
01086E Palmyrene letter nun
01086F Palmyrene letter samekh
010870 Palmyrene letter ayin
010871 Palmyrene letter pe
010872 Palmyrene letter sadhe
010873 Palmyrene letter qoph
010874 Palmyrene letter resh
010875 Palmyrene letter shin
010876 Palmyrene letter taw
010877 Palmyrene left-pointing fleuron
010878 Palmyrene right-pointing fleuron
010879 Palmyrene number one
01087A Palmyrene number two
01087B Palmyrene number three
01087C Palmyrene number four
01087D Palmyrene number five
01087E Palmyrene number ten
01087F Palmyrene number twenty
010880 Nabataean letter final aleph
010881 Nabataean letter aleph
010882 Nabataean letter final beth
010883 Nabataean letter beth
010884 Nabataean letter gimel
010885 Nabataean letter daleth
010886 Nabataean letter final he
010887 Nabataean letter he
010888 Nabataean letter waw
010889 Nabataean letter zayin
01088A Nabataean letter heth
01088B Nabataean letter teth
01088C Nabataean letter final yodh
01088D Nabataean letter yodh
01088E Nabataean letter final kaph
01088F Nabataean letter kaph
010890 Nabataean letter final lamedh
010891 Nabataean letter lamedh
010892 Nabataean letter final mem
010893 Nabataean letter mem
010894 Nabataean letter final nun
010895 Nabataean letter nun
010896 Nabataean letter samekh
010897 Nabataean letter ayin
010898 Nabataean letter pe
010899 Nabataean letter sadhe
01089A Nabataean letter qoph
01089B Nabataean letter resh
01089C Nabataean letter final shin
01089D Nabataean letter shin
01089E Nabataean letter taw
0108A7 Nabataean number one
0108A8 Nabataean number two
0108A9 Nabataean number three
0108AA Nabataean number four
0108AB Nabataean cruciform number four
0108AC Nabataean number five
0108AD Nabataean number ten
0108AE Nabataean number twenty
0108AF Nabataean number one hundred
0108E0 Hatran letter aleph
0108E1 Hatran letter beth
0108E2 Hatran letter gimel
0108E3 Hatran letter daleth-resh
0108E4 Hatran letter he
0108E5 Hatran letter waw
0108E6 Hatran letter zayn
0108E7 Hatran letter heth
0108E8 Hatran letter teth
0108E9 Hatran letter yodh
0108EA Hatran letter kaph
0108EB Hatran letter lamedh
0108EC Hatran letter mem
0108ED Hatran letter nun
0108EE Hatran letter samekh
0108EF Hatran letter ayn
0108F0 Hatran letter pe
0108F1 Hatran letter sadhe
0108F2 Hatran letter qoph
0108F4 Hatran letter shin
0108F5 Hatran letter taw
0108FB Hatran number one
0108FC Hatran number five
0108FD Hatran number ten
0108FE Hatran number twenty
0108FF Hatran number one hundred
010900 Phoenician letter alf
010901 Phoenician letter bet
010902 Phoenician letter gaml
010903 Phoenician letter delt
010904 Phoenician letter he
010905 Phoenician letter wau
010906 Phoenician letter zai
010907 Phoenician letter het
010908 Phoenician letter tet
010909 Phoenician letter yod
01090A Phoenician letter kaf
01090B Phoenician letter lamd
01090C Phoenician letter mem
01090D Phoenician letter nun
01090E Phoenician letter semk
01090F Phoenician letter ain
010910 Phoenician letter pe
010911 Phoenician letter sade
010912 Phoenician letter qof
010913 Phoenician letter rosh
010914 Phoenician letter shin
010915 Phoenician letter tau
010916 Phoenician number one
010917 Phoenician number ten
010918 Phoenician number twenty
010919 Phoenician number one hundred
01091A Phoenician number two
01091B Phoenician number three
01091F Phoenician word separator
010920 Lydian letter a
010921 Lydian letter b
010922 Lydian letter g
010923 Lydian letter d
010924 Lydian letter e
010925 Lydian letter v
010926 Lydian letter i
010927 Lydian letter y
010928 Lydian letter k
010929 Lydian letter l
01092A Lydian letter m
01092B Lydian letter n
01092C Lydian letter o
01092D Lydian letter r
01092E Lydian letter ss
01092F Lydian letter t
010930 Lydian letter u
010931 Lydian letter f
010932 Lydian letter q
010933 Lydian letter s
010934 Lydian letter tt
010935 Lydian letter an
010936 Lydian letter en
010937 Lydian letter ly
010938 Lydian letter nn
010939 Lydian letter c
01093F Lydian triangular mark
010980 Meroitic hieroglyphic letter a
010981 Meroitic hieroglyphic letter e
010982 Meroitic hieroglyphic letter i
010983 Meroitic hieroglyphic letter o
010984 Meroitic hieroglyphic letter ya
010985 Meroitic hieroglyphic letter wa
010986 Meroitic hieroglyphic letter ba
010987 Meroitic hieroglyphic letter ba-2
010988 Meroitic hieroglyphic letter pa
010989 Meroitic hieroglyphic letter ma
01098A Meroitic hieroglyphic letter na
01098B Meroitic hieroglyphic letter na-2
01098C Meroitic hieroglyphic letter ne
01098D Meroitic hieroglyphic letter ne-2
01098E Meroitic hieroglyphic letter ra
01098F Meroitic hieroglyphic letter ra-2
010990 Meroitic hieroglyphic letter la
010991 Meroitic hieroglyphic letter kha
010992 Meroitic hieroglyphic letter hha
010993 Meroitic hieroglyphic letter sa
010994 Meroitic hieroglyphic letter sa-2
010995 Meroitic hieroglyphic letter se
010996 Meroitic hieroglyphic letter ka
010997 Meroitic hieroglyphic letter qa
010998 Meroitic hieroglyphic letter ta
010999 Meroitic hieroglyphic letter ta-2
01099A Meroitic hieroglyphic letter te
01099B Meroitic hieroglyphic letter te-2
01099C Meroitic hieroglyphic letter to
01099D Meroitic hieroglyphic letter da
01099E Meroitic hieroglyphic symbol vidj
01099F Meroitic hieroglyphic symbol vidj-2
0109A0 Meroitic cursive letter a
0109A1 Meroitic cursive letter e
0109A2 Meroitic cursive letter i
0109A3 Meroitic cursive letter o
0109A4 Meroitic cursive letter ya
0109A5 Meroitic cursive letter wa
0109A6 Meroitic cursive letter ba
0109A7 Meroitic cursive letter pa
0109A8 Meroitic cursive letter ma
0109A9 Meroitic cursive letter na
0109AA Meroitic cursive letter ne
0109AB Meroitic cursive letter ra
0109AC Meroitic cursive letter la
0109AD Meroitic cursive letter kha
0109AE Meroitic cursive letter hha
0109AF Meroitic cursive letter sa
0109B0 Meroitic cursive letter archaic sa
0109B1 Meroitic cursive letter se
0109B2 Meroitic cursive letter ka
0109B3 Meroitic cursive letter qa
0109B4 Meroitic cursive letter ta
0109B5 Meroitic cursive letter te
0109B6 Meroitic cursive letter to
0109B7 Meroitic cursive letter da
0109BC Meroitic cursive fraction eleven twelfths
0109BD Meroitic cursive fraction one half
0109BE Meroitic cursive logogram rmt
0109BF Meroitic cursive logogram imn
0109C0 Meroitic cursive number one
0109C1 Meroitic cursive number two
0109C2 Meroitic cursive number three
0109C3 Meroitic cursive number four
0109C4 Meroitic cursive number five
0109C5 Meroitic cursive number six
0109C6 Meroitic cursive number seven
0109C7 Meroitic cursive number eight
0109C8 Meroitic cursive number nine
0109C9 Meroitic cursive number ten
0109CA Meroitic cursive number twenty
0109CB Meroitic cursive number thirty
0109CC Meroitic cursive number forty
0109CD Meroitic cursive number fifty
0109CE Meroitic cursive number sixty
0109CF Meroitic cursive number seventy
0109D2 Meroitic cursive number one hundred
0109D3 Meroitic cursive number two hundred
0109D4 Meroitic cursive number three hundred
0109D5 Meroitic cursive number four hundred
0109D6 Meroitic cursive number five hundred
0109D7 Meroitic cursive number six hundred
0109D8 Meroitic cursive number seven hundred
0109D9 Meroitic cursive number eight hundred
0109DA Meroitic cursive number nine hundred
0109DB Meroitic cursive number one thousand
0109DC Meroitic cursive number two thousand
0109DD Meroitic cursive number three thousand
0109DE Meroitic cursive number four thousand
0109DF Meroitic cursive number five thousand
0109E0 Meroitic cursive number six thousand
0109E1 Meroitic cursive number seven thousand
0109E2 Meroitic cursive number eight thousand
0109E3 Meroitic cursive number nine thousand
0109E4 Meroitic cursive number ten thousand
0109E5 Meroitic cursive number twenty thousand
0109E6 Meroitic cursive number thirty thousand
0109E7 Meroitic cursive number forty thousand
0109E8 Meroitic cursive number fifty thousand
0109E9 Meroitic cursive number sixty thousand
0109EA Meroitic cursive number seventy thousand
0109EB Meroitic cursive number eighty thousand
0109EC Meroitic cursive number ninety thousand
0109ED Meroitic cursive number one hundred thousand
0109EE Meroitic cursive number two hundred thousand
0109EF Meroitic cursive number three hundred thousand
0109F0 Meroitic cursive number four hundred thousand
0109F1 Meroitic cursive number five hundred thousand
0109F2 Meroitic cursive number six hundred thousand
0109F3 Meroitic cursive number seven hundred thousand
0109F4 Meroitic cursive number eight hundred thousand
0109F5 Meroitic cursive number nine hundred thousand
0109F6 Meroitic cursive fraction one twelfth
0109F7 Meroitic cursive fraction two twelfths
0109F8 Meroitic cursive fraction three twelfths
0109F9 Meroitic cursive fraction four twelfths
0109FA Meroitic cursive fraction five twelfths
0109FB Meroitic cursive fraction six twelfths
0109FC Meroitic cursive fraction seven twelfths
0109FD Meroitic cursive fraction eight twelfths
0109FE Meroitic cursive fraction nine twelfths
0109FF Meroitic cursive fraction ten twelfths
010A00 Kharoshthi letter a
010A01 Kharoshthi vowel sign i
010A02 Kharoshthi vowel sign u
010A03 Kharoshthi vowel sign vocalic r
010A05 Kharoshthi vowel sign e
010A06 Kharoshthi vowel sign o
010A0C Kharoshthi vowel length mark
010A0D Kharoshthi sign double ring below
010A0E Kharoshthi sign anusvara
010A0F Kharoshthi sign visarga
010A10 Kharoshthi letter ka
010A11 Kharoshthi letter kha
010A12 Kharoshthi letter ga
010A13 Kharoshthi letter gha
010A15 Kharoshthi letter ca
010A16 Kharoshthi letter cha
010A17 Kharoshthi letter ja
010A19 Kharoshthi letter nya
010A1A Kharoshthi letter tta
010A1B Kharoshthi letter ttha
010A1C Kharoshthi letter dda
010A1D Kharoshthi letter ddha
010A1E Kharoshthi letter nna
010A1F Kharoshthi letter ta
010A20 Kharoshthi letter tha
010A21 Kharoshthi letter da
010A22 Kharoshthi letter dha
010A23 Kharoshthi letter na
010A24 Kharoshthi letter pa
010A25 Kharoshthi letter pha
010A26 Kharoshthi letter ba
010A27 Kharoshthi letter bha
010A28 Kharoshthi letter ma
010A29 Kharoshthi letter ya
010A2A Kharoshthi letter ra
010A2B Kharoshthi letter la
010A2C Kharoshthi letter va
010A2D Kharoshthi letter sha
010A2E Kharoshthi letter ssa
010A2F Kharoshthi letter sa
010A30 Kharoshthi letter za
010A31 Kharoshthi letter ha
010A32 Kharoshthi letter kka
010A33 Kharoshthi letter tttha
010A34 Kharoshthi letter ttta
010A35 Kharoshthi letter vha
010A38 Kharoshthi sign bar above
010A39 Kharoshthi sign cauda
010A3A Kharoshthi sign dot below
010A3F Kharoshthi virama
010A40 Kharoshthi digit one
010A41 Kharoshthi digit two
010A42 Kharoshthi digit three
010A43 Kharoshthi digit four
010A44 Kharoshthi number ten
010A45 Kharoshthi number twenty
010A46 Kharoshthi number one hundred
010A47 Kharoshthi number one thousand
010A48 Kharoshthi fraction one half
010A50 Kharoshthi punctuation dot
010A51 Kharoshthi punctuation small circle
010A52 Kharoshthi punctuation circle
010A53 Kharoshthi punctuation crescent bar
010A54 Kharoshthi punctuation mangalam
010A55 Kharoshthi punctuation lotus
010A56 Kharoshthi punctuation danda
010A57 Kharoshthi punctuation double danda
010A58 Kharoshthi punctuation lines
010A60 Old south arabian letter he
010A61 Old south arabian letter lamedh
010A62 Old south arabian letter heth
010A63 Old south arabian letter mem
010A64 Old south arabian letter qoph
010A65 Old south arabian letter waw
010A66 Old south arabian letter shin
010A67 Old south arabian letter resh
010A68 Old south arabian letter beth
010A69 Old south arabian letter taw
010A6A Old south arabian letter sat
010A6B Old south arabian letter kaph
010A6C Old south arabian letter nun
010A6D Old south arabian letter kheth
010A6E Old south arabian letter sadhe
010A6F Old south arabian letter samekh
010A70 Old south arabian letter fe
010A71 Old south arabian letter alef
010A72 Old south arabian letter ayn
010A73 Old south arabian letter dhadhe
010A74 Old south arabian letter gimel
010A75 Old south arabian letter daleth
010A76 Old south arabian letter ghayn
010A77 Old south arabian letter teth
010A78 Old south arabian letter zayn
010A79 Old south arabian letter dhaleth
010A7A Old south arabian letter yodh
010A7B Old south arabian letter thaw
010A7C Old south arabian letter theth
010A7D Old south arabian number one
010A7E Old south arabian number fifty
010A7F Old south arabian numeric indicator
010A80 Old north arabian letter heh
010A81 Old north arabian letter lam
010A82 Old north arabian letter hah
010A83 Old north arabian letter meem
010A84 Old north arabian letter qaf
010A85 Old north arabian letter waw
010A86 Old north arabian letter es-2
010A87 Old north arabian letter reh
010A88 Old north arabian letter beh
010A89 Old north arabian letter teh
010A8A Old north arabian letter es-1
010A8B Old north arabian letter kaf
010A8C Old north arabian letter noon
010A8D Old north arabian letter khah
010A8E Old north arabian letter sad
010A8F Old north arabian letter es-3
010A90 Old north arabian letter feh
010A91 Old north arabian letter alef
010A92 Old north arabian letter ain
010A93 Old north arabian letter dad
010A94 Old north arabian letter geem
010A95 Old north arabian letter dal
010A96 Old north arabian letter ghain
";

pub const NAMES_45: &'static str = "010A97 Old north arabian letter tah
010A98 Old north arabian letter zain
010A99 Old north arabian letter thal
010A9A Old north arabian letter yeh
010A9B Old north arabian letter theh
010A9C Old north arabian letter zah
010A9D Old north arabian number one
010A9E Old north arabian number ten
010A9F Old north arabian number twenty
010AC0 Manichaean letter aleph
010AC1 Manichaean letter beth
010AC2 Manichaean letter bheth
010AC3 Manichaean letter gimel
010AC4 Manichaean letter ghimel
010AC5 Manichaean letter daleth
010AC6 Manichaean letter he
010AC7 Manichaean letter waw
010AC8 Manichaean sign ud
010AC9 Manichaean letter zayin
010ACA Manichaean letter zhayin
010ACB Manichaean letter jayin
010ACC Manichaean letter jhayin
010ACD Manichaean letter heth
010ACE Manichaean letter teth
010ACF Manichaean letter yodh
010AD0 Manichaean letter kaph
010AD1 Manichaean letter xaph
010AD2 Manichaean letter khaph
010AD3 Manichaean letter lamedh
010AD4 Manichaean letter dhamedh
010AD5 Manichaean letter thamedh
010AD6 Manichaean letter mem
010AD7 Manichaean letter nun
010AD8 Manichaean letter samekh
010AD9 Manichaean letter ayin
010ADA Manichaean letter aayin
010ADB Manichaean letter pe
010ADC Manichaean letter fe
010ADD Manichaean letter sadhe
010ADE Manichaean letter qoph
010ADF Manichaean letter xoph
010AE0 Manichaean letter qhoph
010AE1 Manichaean letter resh
010AE2 Manichaean letter shin
010AE3 Manichaean letter sshin
010AE4 Manichaean letter taw
010AE5 Manichaean abbreviation mark above
010AE6 Manichaean abbreviation mark below
010AEB Manichaean number one
010AEC Manichaean number five
010AED Manichaean number ten
010AEE Manichaean number twenty
010AEF Manichaean number one hundred
010AF0 Manichaean punctuation star
010AF1 Manichaean punctuation fleuron
010AF2 Manichaean punctuation double dot within dot
010AF3 Manichaean punctuation dot within dot
010AF4 Manichaean punctuation dot
010AF5 Manichaean punctuation two dots
010AF6 Manichaean punctuation line filler
010B00 Avestan letter a
010B01 Avestan letter aa
010B02 Avestan letter ao
010B03 Avestan letter aao
010B04 Avestan letter an
010B05 Avestan letter aan
010B06 Avestan letter ae
010B07 Avestan letter aee
010B08 Avestan letter e
010B09 Avestan letter ee
010B0A Avestan letter o
010B0B Avestan letter oo
010B0C Avestan letter i
010B0D Avestan letter ii
010B0E Avestan letter u
010B0F Avestan letter uu
010B10 Avestan letter ke
010B11 Avestan letter xe
010B12 Avestan letter xye
010B13 Avestan letter xve
010B14 Avestan letter ge
010B15 Avestan letter gge
010B16 Avestan letter ghe
010B17 Avestan letter ce
010B18 Avestan letter je
010B19 Avestan letter te
010B1A Avestan letter the
010B1B Avestan letter de
010B1C Avestan letter dhe
010B1D Avestan letter tte
010B1E Avestan letter pe
010B1F Avestan letter fe
010B20 Avestan letter be
010B21 Avestan letter bhe
010B22 Avestan letter nge
010B23 Avestan letter ngye
010B24 Avestan letter ngve
010B25 Avestan letter ne
010B26 Avestan letter nye
010B27 Avestan letter nne
010B28 Avestan letter me
010B29 Avestan letter hme
010B2A Avestan letter yye
010B2B Avestan letter ye
010B2C Avestan letter ve
010B2D Avestan letter re
010B2E Avestan letter le
010B2F Avestan letter se
010B30 Avestan letter ze
010B31 Avestan letter she
010B32 Avestan letter zhe
010B33 Avestan letter shye
010B34 Avestan letter sshe
010B35 Avestan letter he
010B39 Avestan abbreviation mark
010B3A Tiny two dots over one dot punctuation
010B3B Small two dots over one dot punctuation
010B3C Large two dots over one dot punctuation
010B3D Large one dot over two dots punctuation
010B3E Large two rings over one ring punctuation
010B3F Large one ring over two rings punctuation
010B40 Inscriptional parthian letter aleph
010B41 Inscriptional parthian letter beth
010B42 Inscriptional parthian letter gimel
010B43 Inscriptional parthian letter daleth
010B44 Inscriptional parthian letter he
010B45 Inscriptional parthian letter waw
010B46 Inscriptional parthian letter zayin
010B47 Inscriptional parthian letter heth
010B48 Inscriptional parthian letter teth
010B49 Inscriptional parthian letter yodh
010B4A Inscriptional parthian letter kaph
010B4B Inscriptional parthian letter lamedh
010B4C Inscriptional parthian letter mem
010B4D Inscriptional parthian letter nun
010B4E Inscriptional parthian letter samekh
010B4F Inscriptional parthian letter ayin
010B50 Inscriptional parthian letter pe
010B51 Inscriptional parthian letter sadhe
010B52 Inscriptional parthian letter qoph
010B53 Inscriptional parthian letter resh
010B54 Inscriptional parthian letter shin
010B55 Inscriptional parthian letter taw
010B58 Inscriptional parthian number one
010B59 Inscriptional parthian number two
010B5A Inscriptional parthian number three
010B5B Inscriptional parthian number four
010B5C Inscriptional parthian number ten
010B5D Inscriptional parthian number twenty
010B5E Inscriptional parthian number one hundred
010B5F Inscriptional parthian number one thousand
010B60 Inscriptional pahlavi letter aleph
010B61 Inscriptional pahlavi letter beth
010B62 Inscriptional pahlavi letter gimel
010B63 Inscriptional pahlavi letter daleth
010B64 Inscriptional pahlavi letter he
010B65 Inscriptional pahlavi letter waw-ayin-resh
010B66 Inscriptional pahlavi letter zayin
010B67 Inscriptional pahlavi letter heth
010B68 Inscriptional pahlavi letter teth
010B69 Inscriptional pahlavi letter yodh
010B6A Inscriptional pahlavi letter kaph
010B6B Inscriptional pahlavi letter lamedh
010B6C Inscriptional pahlavi letter mem-qoph
010B6D Inscriptional pahlavi letter nun
010B6E Inscriptional pahlavi letter samekh
010B6F Inscriptional pahlavi letter pe
010B70 Inscriptional pahlavi letter sadhe
010B71 Inscriptional pahlavi letter shin
010B72 Inscriptional pahlavi letter taw
010B78 Inscriptional pahlavi number one
010B79 Inscriptional pahlavi number two
010B7A Inscriptional pahlavi number three
010B7B Inscriptional pahlavi number four
010B7C Inscriptional pahlavi number ten
010B7D Inscriptional pahlavi number twenty
010B7E Inscriptional pahlavi number one hundred
010B7F Inscriptional pahlavi number one thousand
010B80 Psalter pahlavi letter aleph
010B81 Psalter pahlavi letter beth
010B82 Psalter pahlavi letter gimel
010B83 Psalter pahlavi letter daleth
010B84 Psalter pahlavi letter he
010B85 Psalter pahlavi letter waw-ayin-resh
010B86 Psalter pahlavi letter zayin
010B87 Psalter pahlavi letter heth
010B88 Psalter pahlavi letter yodh
010B89 Psalter pahlavi letter kaph
010B8A Psalter pahlavi letter lamedh
010B8B Psalter pahlavi letter mem-qoph
010B8C Psalter pahlavi letter nun
010B8D Psalter pahlavi letter samekh
010B8E Psalter pahlavi letter pe
010B8F Psalter pahlavi letter sadhe
010B90 Psalter pahlavi letter shin
010B91 Psalter pahlavi letter taw
010B99 Psalter pahlavi section mark
010B9A Psalter pahlavi turned section mark
010B9B Psalter pahlavi four dots with cross
010B9C Psalter pahlavi four dots with dot
010BA9 Psalter pahlavi number one
010BAA Psalter pahlavi number two
010BAB Psalter pahlavi number three
010BAC Psalter pahlavi number four
010BAD Psalter pahlavi number ten
010BAE Psalter pahlavi number twenty
010BAF Psalter pahlavi number one hundred
010C00 Old turkic letter orkhon a
010C01 Old turkic letter yenisei a
010C02 Old turkic letter yenisei ae
010C03 Old turkic letter orkhon i
010C04 Old turkic letter yenisei i
010C05 Old turkic letter yenisei e
010C06 Old turkic letter orkhon o
010C07 Old turkic letter orkhon oe
010C08 Old turkic letter yenisei oe
010C09 Old turkic letter orkhon ab
010C0A Old turkic letter yenisei ab
010C0B Old turkic letter orkhon aeb
010C0C Old turkic letter yenisei aeb
010C0D Old turkic letter orkhon ag
010C0E Old turkic letter yenisei ag
010C0F Old turkic letter orkhon aeg
010C10 Old turkic letter yenisei aeg
010C11 Old turkic letter orkhon ad
010C12 Old turkic letter yenisei ad
010C13 Old turkic letter orkhon aed
010C14 Old turkic letter orkhon ez
010C15 Old turkic letter yenisei ez
010C16 Old turkic letter orkhon ay
010C17 Old turkic letter yenisei ay
010C18 Old turkic letter orkhon aey
010C19 Old turkic letter yenisei aey
010C1A Old turkic letter orkhon aek
010C1B Old turkic letter yenisei aek
010C1C Old turkic letter orkhon oek
010C1D Old turkic letter yenisei oek
010C1E Old turkic letter orkhon al
010C1F Old turkic letter yenisei al
010C20 Old turkic letter orkhon ael
010C21 Old turkic letter orkhon elt
010C22 Old turkic letter orkhon em
010C23 Old turkic letter orkhon an
010C24 Old turkic letter orkhon aen
010C25 Old turkic letter yenisei aen
010C26 Old turkic letter orkhon ent
010C27 Old turkic letter yenisei ent
010C28 Old turkic letter orkhon enc
010C29 Old turkic letter yenisei enc
010C2A Old turkic letter orkhon eny
010C2B Old turkic letter yenisei eny
010C2C Old turkic letter yenisei ang
010C2D Old turkic letter orkhon eng
010C2E Old turkic letter yenisei aeng
010C2F Old turkic letter orkhon ep
010C30 Old turkic letter orkhon op
010C31 Old turkic letter orkhon ic
010C32 Old turkic letter orkhon ec
010C33 Old turkic letter yenisei ec
010C34 Old turkic letter orkhon aq
010C35 Old turkic letter yenisei aq
010C36 Old turkic letter orkhon iq
010C37 Old turkic letter yenisei iq
010C38 Old turkic letter orkhon oq
010C39 Old turkic letter yenisei oq
010C3A Old turkic letter orkhon ar
010C3B Old turkic letter yenisei ar
010C3C Old turkic letter orkhon aer
010C3D Old turkic letter orkhon as
010C3E Old turkic letter orkhon aes
010C3F Old turkic letter orkhon ash
010C40 Old turkic letter yenisei ash
010C41 Old turkic letter orkhon esh
010C42 Old turkic letter yenisei esh
010C43 Old turkic letter orkhon at
010C44 Old turkic letter yenisei at
010C45 Old turkic letter orkhon aet
010C46 Old turkic letter yenisei aet
010C47 Old turkic letter orkhon ot
010C48 Old turkic letter orkhon bash
010C80 Old hungarian capital letter a
010C81 Old hungarian capital letter aa
010C82 Old hungarian capital letter eb
010C83 Old hungarian capital letter amb
010C84 Old hungarian capital letter ec
010C85 Old hungarian capital letter enc
010C86 Old hungarian capital letter ecs
010C87 Old hungarian capital letter ed
010C88 Old hungarian capital letter and
010C89 Old hungarian capital letter e
010C8A Old hungarian capital letter close e
010C8B Old hungarian capital letter ee
010C8C Old hungarian capital letter ef
010C8D Old hungarian capital letter eg
010C8E Old hungarian capital letter egy
010C8F Old hungarian capital letter eh
010C90 Old hungarian capital letter i
010C91 Old hungarian capital letter ii
010C92 Old hungarian capital letter ej
010C93 Old hungarian capital letter ek
010C94 Old hungarian capital letter ak
010C95 Old hungarian capital letter unk
010C96 Old hungarian capital letter el
010C97 Old hungarian capital letter ely
010C98 Old hungarian capital letter em
010C99 Old hungarian capital letter en
010C9A Old hungarian capital letter eny
010C9B Old hungarian capital letter o
010C9C Old hungarian capital letter oo
010C9D Old hungarian capital letter nikolsburg oe
010C9E Old hungarian capital letter rudimenta oe
010C9F Old hungarian capital letter oee
010CA0 Old hungarian capital letter ep
010CA1 Old hungarian capital letter emp
010CA2 Old hungarian capital letter er
010CA3 Old hungarian capital letter short er
010CA4 Old hungarian capital letter es
010CA5 Old hungarian capital letter esz
010CA6 Old hungarian capital letter et
010CA7 Old hungarian capital letter ent
010CA8 Old hungarian capital letter ety
010CA9 Old hungarian capital letter ech
010CAA Old hungarian capital letter u
010CAB Old hungarian capital letter uu
010CAC Old hungarian capital letter nikolsburg ue
010CAD Old hungarian capital letter rudimenta ue
010CAE Old hungarian capital letter ev
010CAF Old hungarian capital letter ez
010CB0 Old hungarian capital letter ezs
010CB1 Old hungarian capital letter ent-shaped sign
010CB2 Old hungarian capital letter us
010CC0 Old hungarian small letter a
010CC1 Old hungarian small letter aa
010CC2 Old hungarian small letter eb
010CC3 Old hungarian small letter amb
010CC4 Old hungarian small letter ec
010CC5 Old hungarian small letter enc
010CC6 Old hungarian small letter ecs
010CC7 Old hungarian small letter ed
010CC8 Old hungarian small letter and
010CC9 Old hungarian small letter e
010CCA Old hungarian small letter close e
010CCB Old hungarian small letter ee
010CCC Old hungarian small letter ef
010CCD Old hungarian small letter eg
010CCE Old hungarian small letter egy
010CCF Old hungarian small letter eh
010CD0 Old hungarian small letter i
010CD1 Old hungarian small letter ii
010CD2 Old hungarian small letter ej
010CD3 Old hungarian small letter ek
010CD4 Old hungarian small letter ak
010CD5 Old hungarian small letter unk
010CD6 Old hungarian small letter el
010CD7 Old hungarian small letter ely
010CD8 Old hungarian small letter em
010CD9 Old hungarian small letter en
010CDA Old hungarian small letter eny
010CDB Old hungarian small letter o
010CDC Old hungarian small letter oo
010CDD Old hungarian small letter nikolsburg oe
010CDE Old hungarian small letter rudimenta oe
010CDF Old hungarian small letter oee
010CE0 Old hungarian small letter ep
010CE1 Old hungarian small letter emp
010CE2 Old hungarian small letter er
010CE3 Old hungarian small letter short er
010CE4 Old hungarian small letter es
010CE5 Old hungarian small letter esz
010CE6 Old hungarian small letter et
010CE7 Old hungarian small letter ent
010CE8 Old hungarian small letter ety
010CE9 Old hungarian small letter ech
010CEA Old hungarian small letter u
010CEB Old hungarian small letter uu
010CEC Old hungarian small letter nikolsburg ue
010CED Old hungarian small letter rudimenta ue
010CEE Old hungarian small letter ev
010CEF Old hungarian small letter ez
010CF0 Old hungarian small letter ezs
010CF1 Old hungarian small letter ent-shaped sign
010CF2 Old hungarian small letter us
010CFA Old hungarian number one
010CFB Old hungarian number five
010CFC Old hungarian number ten
010CFD Old hungarian number fifty
010CFE Old hungarian number one hundred
";

pub const NAMES_46: &'static str = "010CFF Old hungarian number one thousand
010D00 Hanifi rohingya letter a
010D01 Hanifi rohingya letter ba
010D02 Hanifi rohingya letter pa
010D03 Hanifi rohingya letter ta
010D04 Hanifi rohingya letter tta
010D05 Hanifi rohingya letter ja
010D06 Hanifi rohingya letter ca
010D07 Hanifi rohingya letter ha
010D08 Hanifi rohingya letter kha
010D09 Hanifi rohingya letter fa
010D0A Hanifi rohingya letter da
010D0B Hanifi rohingya letter dda
010D0C Hanifi rohingya letter ra
010D0D Hanifi rohingya letter rra
010D0E Hanifi rohingya letter za
010D0F Hanifi rohingya letter sa
010D10 Hanifi rohingya letter sha
010D11 Hanifi rohingya letter ka
010D12 Hanifi rohingya letter ga
010D13 Hanifi rohingya letter la
010D14 Hanifi rohingya letter ma
010D15 Hanifi rohingya letter na
010D16 Hanifi rohingya letter wa
010D17 Hanifi rohingya letter kinna wa
010D18 Hanifi rohingya letter ya
010D19 Hanifi rohingya letter kinna ya
010D1A Hanifi rohingya letter nga
010D1B Hanifi rohingya letter nya
010D1C Hanifi rohingya letter va
010D1D Hanifi rohingya vowel a
010D1E Hanifi rohingya vowel i
010D1F Hanifi rohingya vowel u
010D20 Hanifi rohingya vowel e
010D21 Hanifi rohingya vowel o
010D22 Hanifi rohingya mark sakin
010D23 Hanifi rohingya mark na khonna
010D24 Hanifi rohingya sign harbahay
010D25 Hanifi rohingya sign tahala
010D26 Hanifi rohingya sign tana
010D27 Hanifi rohingya sign tassi
010D30 Hanifi rohingya digit zero
010D31 Hanifi rohingya digit one
010D32 Hanifi rohingya digit two
010D33 Hanifi rohingya digit three
010D34 Hanifi rohingya digit four
010D35 Hanifi rohingya digit five
010D36 Hanifi rohingya digit six
010D37 Hanifi rohingya digit seven
010D38 Hanifi rohingya digit eight
010D39 Hanifi rohingya digit nine
010E60 Rumi digit one
010E61 Rumi digit two
010E62 Rumi digit three
010E63 Rumi digit four
010E64 Rumi digit five
010E65 Rumi digit six
010E66 Rumi digit seven
010E67 Rumi digit eight
010E68 Rumi digit nine
010E69 Rumi number ten
010E6A Rumi number twenty
010E6B Rumi number thirty
010E6C Rumi number forty
010E6D Rumi number fifty
010E6E Rumi number sixty
010E6F Rumi number seventy
010E70 Rumi number eighty
010E71 Rumi number ninety
010E72 Rumi number one hundred
010E73 Rumi number two hundred
010E74 Rumi number three hundred
010E75 Rumi number four hundred
010E76 Rumi number five hundred
010E77 Rumi number six hundred
010E78 Rumi number seven hundred
010E79 Rumi number eight hundred
010E7A Rumi number nine hundred
010E7B Rumi fraction one half
010E7C Rumi fraction one quarter
010E7D Rumi fraction one third
010E7E Rumi fraction two thirds
010E80 Yezidi letter elif
010E81 Yezidi letter be
010E82 Yezidi letter pe
010E83 Yezidi letter phe
010E84 Yezidi letter the
010E85 Yezidi letter se
010E86 Yezidi letter cim
010E87 Yezidi letter chim
010E88 Yezidi letter chhim
010E89 Yezidi letter hha
010E8A Yezidi letter xa
010E8B Yezidi letter dal
010E8C Yezidi letter zal
010E8D Yezidi letter ra
010E8E Yezidi letter rha
010E8F Yezidi letter za
010E90 Yezidi letter ja
010E91 Yezidi letter sin
010E92 Yezidi letter shin
010E93 Yezidi letter sad
010E94 Yezidi letter dad
010E95 Yezidi letter ta
010E96 Yezidi letter ze
010E97 Yezidi letter eyn
010E98 Yezidi letter xheyn
010E99 Yezidi letter fa
010E9A Yezidi letter va
010E9B Yezidi letter va alternate form
010E9C Yezidi letter qaf
010E9D Yezidi letter kaf
010E9E Yezidi letter khaf
010E9F Yezidi letter gaf
010EA0 Yezidi letter lam
010EA1 Yezidi letter mim
010EA2 Yezidi letter nun
010EA3 Yezidi letter um
010EA4 Yezidi letter waw
010EA5 Yezidi letter ow
010EA6 Yezidi letter ew
010EA7 Yezidi letter hay
010EA8 Yezidi letter yot
010EA9 Yezidi letter et
010EAB Yezidi combining hamza mark
010EAC Yezidi combining madda mark
010EAD Yezidi hyphenation mark
010EB0 Yezidi letter lam with dot above
010EB1 Yezidi letter yot with circumflex above
010F00 Old sogdian letter aleph
010F01 Old sogdian letter final aleph
010F02 Old sogdian letter beth
010F03 Old sogdian letter final beth
010F04 Old sogdian letter gimel
010F05 Old sogdian letter he
010F06 Old sogdian letter final he
010F07 Old sogdian letter waw
010F08 Old sogdian letter zayin
010F09 Old sogdian letter heth
010F0A Old sogdian letter yodh
010F0B Old sogdian letter kaph
010F0C Old sogdian letter lamedh
010F0D Old sogdian letter mem
010F0E Old sogdian letter nun
010F0F Old sogdian letter final nun
010F10 Old sogdian letter final nun with vertical tail
010F11 Old sogdian letter samekh
010F12 Old sogdian letter ayin
010F13 Old sogdian letter alternate ayin
010F14 Old sogdian letter pe
010F15 Old sogdian letter sadhe
010F16 Old sogdian letter final sadhe
010F17 Old sogdian letter final sadhe with vertical tail
010F18 Old sogdian letter resh-ayin-daleth
010F19 Old sogdian letter shin
010F1A Old sogdian letter taw
010F1B Old sogdian letter final taw
010F1C Old sogdian letter final taw with vertical tail
010F1D Old sogdian number one
010F1E Old sogdian number two
010F1F Old sogdian number three
010F20 Old sogdian number four
010F21 Old sogdian number five
010F22 Old sogdian number ten
010F23 Old sogdian number twenty
010F24 Old sogdian number thirty
010F25 Old sogdian number one hundred
010F26 Old sogdian fraction one half
010F27 Old sogdian ligature ayin-daleth
010F30 Sogdian letter aleph
010F31 Sogdian letter beth
010F32 Sogdian letter gimel
010F33 Sogdian letter he
010F34 Sogdian letter waw
010F35 Sogdian letter zayin
010F36 Sogdian letter heth
010F37 Sogdian letter yodh
010F38 Sogdian letter kaph
010F39 Sogdian letter lamedh
010F3A Sogdian letter mem
010F3B Sogdian letter nun
010F3C Sogdian letter samekh
010F3D Sogdian letter ayin
010F3E Sogdian letter pe
010F3F Sogdian letter sadhe
010F40 Sogdian letter resh-ayin
010F41 Sogdian letter shin
010F42 Sogdian letter taw
010F43 Sogdian letter feth
010F44 Sogdian letter lesh
010F45 Sogdian independent shin
010F46 Sogdian combining dot below
010F47 Sogdian combining two dots below
010F48 Sogdian combining dot above
010F49 Sogdian combining two dots above
010F4A Sogdian combining curve above
010F4B Sogdian combining curve below
010F4C Sogdian combining hook above
010F4D Sogdian combining hook below
010F4E Sogdian combining long hook below
010F4F Sogdian combining resh below
010F50 Sogdian combining stroke below
010F51 Sogdian number one
010F52 Sogdian number ten
010F53 Sogdian number twenty
010F54 Sogdian number one hundred
010F55 Sogdian punctuation two vertical bars
010F56 Sogdian punctuation two vertical bars with dots
010F57 Sogdian punctuation circle with dot
010F58 Sogdian punctuation two circles with dots
010F59 Sogdian punctuation half circle with dot
010F70 Old uyghur letter aleph
010F71 Old uyghur letter beth
010F72 Old uyghur letter gimel-heth
010F73 Old uyghur letter waw
010F74 Old uyghur letter zayin
010F75 Old uyghur letter final heth
010F76 Old uyghur letter yodh
010F77 Old uyghur letter kaph
010F78 Old uyghur letter lamedh
010F79 Old uyghur letter mem
010F7A Old uyghur letter nun
010F7B Old uyghur letter samekh
010F7C Old uyghur letter pe
010F7D Old uyghur letter sadhe
010F7E Old uyghur letter resh
010F7F Old uyghur letter shin
010F80 Old uyghur letter taw
010F81 Old uyghur letter lesh
010F82 Old uyghur combining dot above
010F83 Old uyghur combining dot below
010F84 Old uyghur combining two dots above
010F85 Old uyghur combining two dots below
010F86 Old uyghur punctuation bar
010F87 Old uyghur punctuation two bars
010F88 Old uyghur punctuation two dots
010F89 Old uyghur punctuation four dots
010FB0 Chorasmian letter aleph
010FB1 Chorasmian letter small aleph
010FB2 Chorasmian letter beth
010FB3 Chorasmian letter gimel
010FB4 Chorasmian letter daleth
010FB5 Chorasmian letter he
010FB6 Chorasmian letter waw
010FB7 Chorasmian letter curled waw
010FB8 Chorasmian letter zayin
010FB9 Chorasmian letter heth
010FBA Chorasmian letter yodh
010FBB Chorasmian letter kaph
010FBC Chorasmian letter lamedh
010FBD Chorasmian letter mem
010FBE Chorasmian letter nun
010FBF Chorasmian letter samekh
010FC0 Chorasmian letter ayin
010FC1 Chorasmian letter pe
010FC2 Chorasmian letter resh
010FC3 Chorasmian letter shin
010FC4 Chorasmian letter taw
010FC5 Chorasmian number one
010FC6 Chorasmian number two
010FC7 Chorasmian number three
010FC8 Chorasmian number four
010FC9 Chorasmian number ten
010FCA Chorasmian number twenty
010FCB Chorasmian number one hundred
010FE0 Elymaic letter aleph
010FE1 Elymaic letter beth
010FE2 Elymaic letter gimel
010FE3 Elymaic letter daleth
010FE4 Elymaic letter he
010FE5 Elymaic letter waw
010FE6 Elymaic letter zayin
010FE7 Elymaic letter heth
010FE8 Elymaic letter teth
010FE9 Elymaic letter yodh
010FEA Elymaic letter kaph
010FEB Elymaic letter lamedh
010FEC Elymaic letter mem
010FED Elymaic letter nun
010FEE Elymaic letter samekh
010FEF Elymaic letter ayin
010FF0 Elymaic letter pe
010FF1 Elymaic letter sadhe
010FF2 Elymaic letter qoph
010FF3 Elymaic letter resh
010FF4 Elymaic letter shin
010FF5 Elymaic letter taw
010FF6 Elymaic ligature zayin-yodh
011000 Brahmi sign candrabindu
011001 Brahmi sign anusvara
011002 Brahmi sign visarga
011003 Brahmi sign jihvamuliya
011004 Brahmi sign upadhmaniya
011005 Brahmi letter a
011006 Brahmi letter aa
011007 Brahmi letter i
011008 Brahmi letter ii
011009 Brahmi letter u
01100A Brahmi letter uu
01100B Brahmi letter vocalic r
01100C Brahmi letter vocalic rr
01100D Brahmi letter vocalic l
01100E Brahmi letter vocalic ll
01100F Brahmi letter e
011010 Brahmi letter ai
011011 Brahmi letter o
011012 Brahmi letter au
011013 Brahmi letter ka
011014 Brahmi letter kha
011015 Brahmi letter ga
011016 Brahmi letter gha
011017 Brahmi letter nga
011018 Brahmi letter ca
011019 Brahmi letter cha
01101A Brahmi letter ja
01101B Brahmi letter jha
01101C Brahmi letter nya
01101D Brahmi letter tta
01101E Brahmi letter ttha
01101F Brahmi letter dda
011020 Brahmi letter ddha
011021 Brahmi letter nna
011022 Brahmi letter ta
011023 Brahmi letter tha
011024 Brahmi letter da
011025 Brahmi letter dha
011026 Brahmi letter na
011027 Brahmi letter pa
011028 Brahmi letter pha
011029 Brahmi letter ba
01102A Brahmi letter bha
01102B Brahmi letter ma
01102C Brahmi letter ya
01102D Brahmi letter ra
01102E Brahmi letter la
01102F Brahmi letter va
011030 Brahmi letter sha
011031 Brahmi letter ssa
011032 Brahmi letter sa
011033 Brahmi letter ha
011034 Brahmi letter lla
011035 Brahmi letter old tamil llla
011036 Brahmi letter old tamil rra
011037 Brahmi letter old tamil nnna
011038 Brahmi vowel sign aa
011039 Brahmi vowel sign bhattiprolu aa
01103A Brahmi vowel sign i
01103B Brahmi vowel sign ii
01103C Brahmi vowel sign u
01103D Brahmi vowel sign uu
01103E Brahmi vowel sign vocalic r
01103F Brahmi vowel sign vocalic rr
011040 Brahmi vowel sign vocalic l
011041 Brahmi vowel sign vocalic ll
011042 Brahmi vowel sign e
011043 Brahmi vowel sign ai
011044 Brahmi vowel sign o
011045 Brahmi vowel sign au
011046 Brahmi virama
011047 Brahmi danda
011048 Brahmi double danda
011049 Brahmi punctuation dot
01104A Brahmi punctuation double dot
01104B Brahmi punctuation line
01104C Brahmi punctuation crescent bar
01104D Brahmi punctuation lotus
011052 Brahmi number one
011053 Brahmi number two
011054 Brahmi number three
011055 Brahmi number four
011056 Brahmi number five
011057 Brahmi number six
011058 Brahmi number seven
011059 Brahmi number eight
01105A Brahmi number nine
01105B Brahmi number ten
01105C Brahmi number twenty
01105D Brahmi number thirty
01105E Brahmi number forty
01105F Brahmi number fifty
011060 Brahmi number sixty
011061 Brahmi number seventy
011062 Brahmi number eighty
011063 Brahmi number ninety
011064 Brahmi number one hundred
011065 Brahmi number one thousand
011066 Brahmi digit zero
011067 Brahmi digit one
011068 Brahmi digit two
011069 Brahmi digit three
01106A Brahmi digit four
01106B Brahmi digit five
01106C Brahmi digit six
01106D Brahmi digit seven
01106E Brahmi digit eight
01106F Brahmi digit nine
011070 Brahmi sign old tamil virama
011071 Brahmi letter old tamil short e
011072 Brahmi letter old tamil short o
011073 Brahmi vowel sign old tamil short e
011074 Brahmi vowel sign old tamil short o
011075 Brahmi letter old tamil lla
01107F Brahmi number joiner
011080 Kaithi sign candrabindu
011081 Kaithi sign anusvara
011082 Kaithi sign visarga
011083 Kaithi letter a
011084 Kaithi letter aa
011085 Kaithi letter i
011086 Kaithi letter ii
011087 Kaithi letter u
011088 Kaithi letter uu
011089 Kaithi letter e
01108A Kaithi letter ai
01108B Kaithi letter o
01108C Kaithi letter au
01108D Kaithi letter ka
01108E Kaithi letter kha
01108F Kaithi letter ga
011090 Kaithi letter gha
011091 Kaithi letter nga
011092 Kaithi letter ca
011093 Kaithi letter cha
011094 Kaithi letter ja
011095 Kaithi letter jha
011096 Kaithi letter nya
011097 Kaithi letter tta
011098 Kaithi letter ttha
011099 Kaithi letter dda
01109A Kaithi letter dddha
01109B Kaithi letter ddha
01109C Kaithi letter rha
01109D Kaithi letter nna
01109E Kaithi letter ta
01109F Kaithi letter tha
0110A0 Kaithi letter da
0110A1 Kaithi letter dha
0110A2 Kaithi letter na
0110A3 Kaithi letter pa
0110A4 Kaithi letter pha
0110A5 Kaithi letter ba
0110A6 Kaithi letter bha
0110A7 Kaithi letter ma
0110A8 Kaithi letter ya
0110A9 Kaithi letter ra
0110AA Kaithi letter la
0110AB Kaithi letter va
0110AC Kaithi letter sha
0110AD Kaithi letter ssa
0110AE Kaithi letter sa
0110AF Kaithi letter ha
0110B0 Kaithi vowel sign aa
0110B1 Kaithi vowel sign i
0110B2 Kaithi vowel sign ii
0110B3 Kaithi vowel sign u
0110B4 Kaithi vowel sign uu
0110B5 Kaithi vowel sign e
0110B6 Kaithi vowel sign ai
0110B7 Kaithi vowel sign o
0110B8 Kaithi vowel sign au
0110B9 Kaithi sign virama
0110BA Kaithi sign nukta
0110BB Kaithi abbreviation sign
0110BC Kaithi enumeration sign
0110BD Kaithi number sign
0110BE Kaithi section mark
0110BF Kaithi double section mark
0110C0 Kaithi danda
0110C1 Kaithi double danda
0110C2 Kaithi vowel sign vocalic r
0110CD Kaithi number sign above
0110D0 Sora sompeng letter sah
0110D1 Sora sompeng letter tah
0110D2 Sora sompeng letter bah
0110D3 Sora sompeng letter cah
";

pub const NAMES_47: &'static str = "0110D4 Sora sompeng letter dah
0110D5 Sora sompeng letter gah
0110D6 Sora sompeng letter mah
0110D7 Sora sompeng letter ngah
0110D8 Sora sompeng letter lah
0110D9 Sora sompeng letter nah
0110DA Sora sompeng letter vah
0110DB Sora sompeng letter pah
0110DC Sora sompeng letter yah
0110DD Sora sompeng letter rah
0110DE Sora sompeng letter hah
0110DF Sora sompeng letter kah
0110E0 Sora sompeng letter jah
0110E1 Sora sompeng letter nyah
0110E2 Sora sompeng letter ah
0110E3 Sora sompeng letter eeh
0110E4 Sora sompeng letter ih
0110E5 Sora sompeng letter uh
0110E6 Sora sompeng letter oh
0110E7 Sora sompeng letter eh
0110E8 Sora sompeng letter mae
0110F0 Sora sompeng digit zero
0110F1 Sora sompeng digit one
0110F2 Sora sompeng digit two
0110F3 Sora sompeng digit three
0110F4 Sora sompeng digit four
0110F5 Sora sompeng digit five
0110F6 Sora sompeng digit six
0110F7 Sora sompeng digit seven
0110F8 Sora sompeng digit eight
0110F9 Sora sompeng digit nine
011100 Chakma sign candrabindu
011101 Chakma sign anusvara
011102 Chakma sign visarga
011103 Chakma letter aa
011104 Chakma letter i
011105 Chakma letter u
011106 Chakma letter e
011107 Chakma letter kaa
011108 Chakma letter khaa
011109 Chakma letter gaa
01110A Chakma letter ghaa
01110B Chakma letter ngaa
01110C Chakma letter caa
01110D Chakma letter chaa
01110E Chakma letter jaa
01110F Chakma letter jhaa
011110 Chakma letter nyaa
011111 Chakma letter ttaa
011112 Chakma letter tthaa
011113 Chakma letter ddaa
011114 Chakma letter ddhaa
011115 Chakma letter nnaa
011116 Chakma letter taa
011117 Chakma letter thaa
011118 Chakma letter daa
011119 Chakma letter dhaa
01111A Chakma letter naa
01111B Chakma letter paa
01111C Chakma letter phaa
01111D Chakma letter baa
01111E Chakma letter bhaa
01111F Chakma letter maa
011120 Chakma letter yyaa
011121 Chakma letter yaa
011122 Chakma letter raa
011123 Chakma letter laa
011124 Chakma letter waa
011125 Chakma letter saa
011126 Chakma letter haa
011127 Chakma vowel sign a
011128 Chakma vowel sign i
011129 Chakma vowel sign ii
01112A Chakma vowel sign u
01112B Chakma vowel sign uu
01112C Chakma vowel sign e
01112D Chakma vowel sign ai
01112E Chakma vowel sign o
01112F Chakma vowel sign au
011130 Chakma vowel sign oi
011131 Chakma o mark
011132 Chakma au mark
011133 Chakma virama
011134 Chakma maayyaa
011136 Chakma digit zero
011137 Chakma digit one
011138 Chakma digit two
011139 Chakma digit three
01113A Chakma digit four
01113B Chakma digit five
01113C Chakma digit six
01113D Chakma digit seven
01113E Chakma digit eight
01113F Chakma digit nine
011140 Chakma section mark
011141 Chakma danda
011142 Chakma double danda
011143 Chakma question mark
011144 Chakma letter lhaa
011145 Chakma vowel sign aa
011146 Chakma vowel sign ei
011147 Chakma letter vaa
011150 Mahajani letter a
011151 Mahajani letter i
011152 Mahajani letter u
011153 Mahajani letter e
011154 Mahajani letter o
011155 Mahajani letter ka
011156 Mahajani letter kha
011157 Mahajani letter ga
011158 Mahajani letter gha
011159 Mahajani letter ca
01115A Mahajani letter cha
01115B Mahajani letter ja
01115C Mahajani letter jha
01115D Mahajani letter nya
01115E Mahajani letter tta
01115F Mahajani letter ttha
011160 Mahajani letter dda
011161 Mahajani letter ddha
011162 Mahajani letter nna
011163 Mahajani letter ta
011164 Mahajani letter tha
011165 Mahajani letter da
011166 Mahajani letter dha
011167 Mahajani letter na
011168 Mahajani letter pa
011169 Mahajani letter pha
01116A Mahajani letter ba
01116B Mahajani letter bha
01116C Mahajani letter ma
01116D Mahajani letter ra
01116E Mahajani letter la
01116F Mahajani letter va
011170 Mahajani letter sa
011171 Mahajani letter ha
011172 Mahajani letter rra
011173 Mahajani sign nukta
011174 Mahajani abbreviation sign
011175 Mahajani section mark
011176 Mahajani ligature shri
011180 Sharada sign candrabindu
011181 Sharada sign anusvara
011182 Sharada sign visarga
011183 Sharada letter a
011184 Sharada letter aa
011185 Sharada letter i
011186 Sharada letter ii
011187 Sharada letter u
011188 Sharada letter uu
011189 Sharada letter vocalic r
01118A Sharada letter vocalic rr
01118B Sharada letter vocalic l
01118C Sharada letter vocalic ll
01118D Sharada letter e
01118E Sharada letter ai
01118F Sharada letter o
011190 Sharada letter au
011191 Sharada letter ka
011192 Sharada letter kha
011193 Sharada letter ga
011194 Sharada letter gha
011195 Sharada letter nga
011196 Sharada letter ca
011197 Sharada letter cha
011198 Sharada letter ja
011199 Sharada letter jha
01119A Sharada letter nya
01119B Sharada letter tta
01119C Sharada letter ttha
01119D Sharada letter dda
01119E Sharada letter ddha
01119F Sharada letter nna
0111A0 Sharada letter ta
0111A1 Sharada letter tha
0111A2 Sharada letter da
0111A3 Sharada letter dha
0111A4 Sharada letter na
0111A5 Sharada letter pa
0111A6 Sharada letter pha
0111A7 Sharada letter ba
0111A8 Sharada letter bha
0111A9 Sharada letter ma
0111AA Sharada letter ya
0111AB Sharada letter ra
0111AC Sharada letter la
0111AD Sharada letter lla
0111AE Sharada letter va
0111AF Sharada letter sha
0111B0 Sharada letter ssa
0111B1 Sharada letter sa
0111B2 Sharada letter ha
0111B3 Sharada vowel sign aa
0111B4 Sharada vowel sign i
0111B5 Sharada vowel sign ii
0111B6 Sharada vowel sign u
0111B7 Sharada vowel sign uu
0111B8 Sharada vowel sign vocalic r
0111B9 Sharada vowel sign vocalic rr
0111BA Sharada vowel sign vocalic l
0111BB Sharada vowel sign vocalic ll
0111BC Sharada vowel sign e
0111BD Sharada vowel sign ai
0111BE Sharada vowel sign o
0111BF Sharada vowel sign au
0111C0 Sharada sign virama
0111C1 Sharada sign avagraha
0111C2 Sharada sign jihvamuliya
0111C3 Sharada sign upadhmaniya
0111C4 Sharada om
0111C5 Sharada danda
0111C6 Sharada double danda
0111C7 Sharada abbreviation sign
0111C8 Sharada separator
0111C9 Sharada sandhi mark
0111CA Sharada sign nukta
0111CB Sharada vowel modifier mark
0111CC Sharada extra short vowel mark
0111CD Sharada sutra mark
0111CE Sharada vowel sign prishthamatra e
0111CF Sharada sign inverted candrabindu
0111D0 Sharada digit zero
0111D1 Sharada digit one
0111D2 Sharada digit two
0111D3 Sharada digit three
0111D4 Sharada digit four
0111D5 Sharada digit five
0111D6 Sharada digit six
0111D7 Sharada digit seven
0111D8 Sharada digit eight
0111D9 Sharada digit nine
0111DA Sharada ekam
0111DB Sharada sign siddham
0111DC Sharada headstroke
0111DD Sharada continuation sign
0111DE Sharada section mark-1
0111DF Sharada section mark-2
0111E1 Sinhala archaic digit one
0111E2 Sinhala archaic digit two
0111E3 Sinhala archaic digit three
0111E4 Sinhala archaic digit four
0111E5 Sinhala archaic digit five
0111E6 Sinhala archaic digit six
0111E7 Sinhala archaic digit seven
0111E8 Sinhala archaic digit eight
0111E9 Sinhala archaic digit nine
0111EA Sinhala archaic number ten
0111EB Sinhala archaic number twenty
0111EC Sinhala archaic number thirty
0111ED Sinhala archaic number forty
0111EE Sinhala archaic number fifty
0111EF Sinhala archaic number sixty
0111F0 Sinhala archaic number seventy
0111F1 Sinhala archaic number eighty
0111F2 Sinhala archaic number ninety
0111F3 Sinhala archaic number one hundred
0111F4 Sinhala archaic number one thousand
011200 Khojki letter a
011201 Khojki letter aa
011202 Khojki letter i
011203 Khojki letter u
011204 Khojki letter e
011205 Khojki letter ai
011206 Khojki letter o
011207 Khojki letter au
011208 Khojki letter ka
011209 Khojki letter kha
01120A Khojki letter ga
01120B Khojki letter gga
01120C Khojki letter gha
01120D Khojki letter nga
01120E Khojki letter ca
01120F Khojki letter cha
011210 Khojki letter ja
011211 Khojki letter jja
011213 Khojki letter nya
011214 Khojki letter tta
011215 Khojki letter ttha
011216 Khojki letter dda
011217 Khojki letter ddha
011218 Khojki letter nna
011219 Khojki letter ta
01121A Khojki letter tha
01121B Khojki letter da
01121C Khojki letter ddda
01121D Khojki letter dha
01121E Khojki letter na
01121F Khojki letter pa
011220 Khojki letter pha
011221 Khojki letter ba
011222 Khojki letter bba
011223 Khojki letter bha
011224 Khojki letter ma
011225 Khojki letter ya
011226 Khojki letter ra
011227 Khojki letter la
011228 Khojki letter va
011229 Khojki letter sa
01122A Khojki letter ha
01122B Khojki letter lla
01122C Khojki vowel sign aa
01122D Khojki vowel sign i
01122E Khojki vowel sign ii
01122F Khojki vowel sign u
011230 Khojki vowel sign e
011231 Khojki vowel sign ai
011232 Khojki vowel sign o
011233 Khojki vowel sign au
011234 Khojki sign anusvara
011235 Khojki sign virama
011236 Khojki sign nukta
011237 Khojki sign shadda
011238 Khojki danda
011239 Khojki double danda
01123A Khojki word separator
01123B Khojki section mark
01123C Khojki double section mark
01123D Khojki abbreviation sign
01123E Khojki sign sukun
011280 Multani letter a
011281 Multani letter i
011282 Multani letter u
011283 Multani letter e
011284 Multani letter ka
011285 Multani letter kha
011286 Multani letter ga
011288 Multani letter gha
01128A Multani letter ca
01128B Multani letter cha
01128C Multani letter ja
01128D Multani letter jja
01128F Multani letter nya
011290 Multani letter tta
011291 Multani letter ttha
011292 Multani letter dda
011293 Multani letter ddda
011294 Multani letter ddha
011295 Multani letter nna
011296 Multani letter ta
011297 Multani letter tha
011298 Multani letter da
011299 Multani letter dha
01129A Multani letter na
01129B Multani letter pa
01129C Multani letter pha
01129D Multani letter ba
01129F Multani letter bha
0112A0 Multani letter ma
0112A1 Multani letter ya
0112A2 Multani letter ra
0112A3 Multani letter la
0112A4 Multani letter va
0112A5 Multani letter sa
0112A6 Multani letter ha
0112A7 Multani letter rra
0112A8 Multani letter rha
0112A9 Multani section mark
0112B0 Khudawadi letter a
0112B1 Khudawadi letter aa
0112B2 Khudawadi letter i
0112B3 Khudawadi letter ii
0112B4 Khudawadi letter u
0112B5 Khudawadi letter uu
0112B6 Khudawadi letter e
0112B7 Khudawadi letter ai
0112B8 Khudawadi letter o
0112B9 Khudawadi letter au
0112BA Khudawadi letter ka
0112BB Khudawadi letter kha
0112BC Khudawadi letter ga
0112BD Khudawadi letter gga
0112BE Khudawadi letter gha
0112BF Khudawadi letter nga
0112C0 Khudawadi letter ca
0112C1 Khudawadi letter cha
0112C2 Khudawadi letter ja
0112C3 Khudawadi letter jja
0112C4 Khudawadi letter jha
0112C5 Khudawadi letter nya
0112C6 Khudawadi letter tta
0112C7 Khudawadi letter ttha
0112C8 Khudawadi letter dda
0112C9 Khudawadi letter ddda
0112CA Khudawadi letter rra
0112CB Khudawadi letter ddha
0112CC Khudawadi letter nna
0112CD Khudawadi letter ta
0112CE Khudawadi letter tha
0112CF Khudawadi letter da
0112D0 Khudawadi letter dha
0112D1 Khudawadi letter na
0112D2 Khudawadi letter pa
0112D3 Khudawadi letter pha
0112D4 Khudawadi letter ba
0112D5 Khudawadi letter bba
0112D6 Khudawadi letter bha
0112D7 Khudawadi letter ma
0112D8 Khudawadi letter ya
0112D9 Khudawadi letter ra
0112DA Khudawadi letter la
0112DB Khudawadi letter va
0112DC Khudawadi letter sha
0112DD Khudawadi letter sa
0112DE Khudawadi letter ha
0112DF Khudawadi sign anusvara
0112E0 Khudawadi vowel sign aa
0112E1 Khudawadi vowel sign i
0112E2 Khudawadi vowel sign ii
0112E3 Khudawadi vowel sign u
0112E4 Khudawadi vowel sign uu
0112E5 Khudawadi vowel sign e
0112E6 Khudawadi vowel sign ai
0112E7 Khudawadi vowel sign o
0112E8 Khudawadi vowel sign au
0112E9 Khudawadi sign nukta
0112EA Khudawadi sign virama
0112F0 Khudawadi digit zero
0112F1 Khudawadi digit one
0112F2 Khudawadi digit two
0112F3 Khudawadi digit three
0112F4 Khudawadi digit four
0112F5 Khudawadi digit five
0112F6 Khudawadi digit six
0112F7 Khudawadi digit seven
0112F8 Khudawadi digit eight
0112F9 Khudawadi digit nine
011300 Grantha sign combining anusvara above
011301 Grantha sign candrabindu
011302 Grantha sign anusvara
011303 Grantha sign visarga
011305 Grantha letter a
011306 Grantha letter aa
011307 Grantha letter i
011308 Grantha letter ii
011309 Grantha letter u
01130A Grantha letter uu
01130B Grantha letter vocalic r
01130C Grantha letter vocalic l
01130F Grantha letter ee
011310 Grantha letter ai
011313 Grantha letter oo
011314 Grantha letter au
011315 Grantha letter ka
011316 Grantha letter kha
011317 Grantha letter ga
011318 Grantha letter gha
011319 Grantha letter nga
01131A Grantha letter ca
01131B Grantha letter cha
01131C Grantha letter ja
01131D Grantha letter jha
01131E Grantha letter nya
01131F Grantha letter tta
011320 Grantha letter ttha
011321 Grantha letter dda
011322 Grantha letter ddha
011323 Grantha letter nna
011324 Grantha letter ta
011325 Grantha letter tha
011326 Grantha letter da
011327 Grantha letter dha
011328 Grantha letter na
01132A Grantha letter pa
01132B Grantha letter pha
01132C Grantha letter ba
01132D Grantha letter bha
01132E Grantha letter ma
01132F Grantha letter ya
011330 Grantha letter ra
011332 Grantha letter la
011333 Grantha letter lla
011335 Grantha letter va
011336 Grantha letter sha
011337 Grantha letter ssa
011338 Grantha letter sa
011339 Grantha letter ha
01133B Combining bindu below
01133C Grantha sign nukta
01133D Grantha sign avagraha
01133E Grantha vowel sign aa
01133F Grantha vowel sign i
011340 Grantha vowel sign ii
011341 Grantha vowel sign u
011342 Grantha vowel sign uu
011343 Grantha vowel sign vocalic r
011344 Grantha vowel sign vocalic rr
011347 Grantha vowel sign ee
011348 Grantha vowel sign ai
01134B Grantha vowel sign oo
01134C Grantha vowel sign au
01134D Grantha sign virama
011350 Grantha om
011357 Grantha au length mark
01135D Grantha sign pluta
01135E Grantha letter vedic anusvara
01135F Grantha letter vedic double anusvara
011360 Grantha letter vocalic rr
011361 Grantha letter vocalic ll
011362 Grantha vowel sign vocalic l
011363 Grantha vowel sign vocalic ll
011366 Combining grantha digit zero
011367 Combining grantha digit one
011368 Combining grantha digit two
011369 Combining grantha digit three
01136A Combining grantha digit four
01136B Combining grantha digit five
01136C Combining grantha digit six
011370 Combining grantha letter a
";

pub const NAMES_48: &'static str = "011371 Combining grantha letter ka
011372 Combining grantha letter na
011373 Combining grantha letter vi
011374 Combining grantha letter pa
011400 Newa letter a
011401 Newa letter aa
011402 Newa letter i
011403 Newa letter ii
011404 Newa letter u
011405 Newa letter uu
011406 Newa letter vocalic r
011407 Newa letter vocalic rr
011408 Newa letter vocalic l
011409 Newa letter vocalic ll
01140A Newa letter e
01140B Newa letter ai
01140C Newa letter o
01140D Newa letter au
01140E Newa letter ka
01140F Newa letter kha
011410 Newa letter ga
011411 Newa letter gha
011412 Newa letter nga
011413 Newa letter ngha
011414 Newa letter ca
011415 Newa letter cha
011416 Newa letter ja
011417 Newa letter jha
011418 Newa letter nya
011419 Newa letter nyha
01141A Newa letter tta
01141B Newa letter ttha
01141C Newa letter dda
01141D Newa letter ddha
01141E Newa letter nna
01141F Newa letter ta
011420 Newa letter tha
011421 Newa letter da
011422 Newa letter dha
011423 Newa letter na
011424 Newa letter nha
011425 Newa letter pa
011426 Newa letter pha
011427 Newa letter ba
011428 Newa letter bha
011429 Newa letter ma
01142A Newa letter mha
01142B Newa letter ya
01142C Newa letter ra
01142D Newa letter rha
01142E Newa letter la
01142F Newa letter lha
011430 Newa letter wa
011431 Newa letter sha
011432 Newa letter ssa
011433 Newa letter sa
011434 Newa letter ha
011435 Newa vowel sign aa
011436 Newa vowel sign i
011437 Newa vowel sign ii
011438 Newa vowel sign u
011439 Newa vowel sign uu
01143A Newa vowel sign vocalic r
01143B Newa vowel sign vocalic rr
01143C Newa vowel sign vocalic l
01143D Newa vowel sign vocalic ll
01143E Newa vowel sign e
01143F Newa vowel sign ai
011440 Newa vowel sign o
011441 Newa vowel sign au
011442 Newa sign virama
011443 Newa sign candrabindu
011444 Newa sign anusvara
011445 Newa sign visarga
011446 Newa sign nukta
011447 Newa sign avagraha
011448 Newa sign final anusvara
011449 Newa om
01144A Newa siddhi
01144B Newa danda
01144C Newa double danda
01144D Newa comma
01144E Newa gap filler
01144F Newa abbreviation sign
011450 Newa digit zero
011451 Newa digit one
011452 Newa digit two
011453 Newa digit three
011454 Newa digit four
011455 Newa digit five
011456 Newa digit six
011457 Newa digit seven
011458 Newa digit eight
011459 Newa digit nine
01145A Newa double comma
01145B Newa placeholder mark
01145D Newa insertion sign
01145E Newa sandhi mark
01145F Newa letter vedic anusvara
011460 Newa sign jihvamuliya
011461 Newa sign upadhmaniya
011480 Tirhuta anji
011481 Tirhuta letter a
011482 Tirhuta letter aa
011483 Tirhuta letter i
011484 Tirhuta letter ii
011485 Tirhuta letter u
011486 Tirhuta letter uu
011487 Tirhuta letter vocalic r
011488 Tirhuta letter vocalic rr
011489 Tirhuta letter vocalic l
01148A Tirhuta letter vocalic ll
01148B Tirhuta letter e
01148C Tirhuta letter ai
01148D Tirhuta letter o
01148E Tirhuta letter au
01148F Tirhuta letter ka
011490 Tirhuta letter kha
011491 Tirhuta letter ga
011492 Tirhuta letter gha
011493 Tirhuta letter nga
011494 Tirhuta letter ca
011495 Tirhuta letter cha
011496 Tirhuta letter ja
011497 Tirhuta letter jha
011498 Tirhuta letter nya
011499 Tirhuta letter tta
01149A Tirhuta letter ttha
01149B Tirhuta letter dda
01149C Tirhuta letter ddha
01149D Tirhuta letter nna
01149E Tirhuta letter ta
01149F Tirhuta letter tha
0114A0 Tirhuta letter da
0114A1 Tirhuta letter dha
0114A2 Tirhuta letter na
0114A3 Tirhuta letter pa
0114A4 Tirhuta letter pha
0114A5 Tirhuta letter ba
0114A6 Tirhuta letter bha
0114A7 Tirhuta letter ma
0114A8 Tirhuta letter ya
0114A9 Tirhuta letter ra
0114AA Tirhuta letter la
0114AB Tirhuta letter va
0114AC Tirhuta letter sha
0114AD Tirhuta letter ssa
0114AE Tirhuta letter sa
0114AF Tirhuta letter ha
0114B0 Tirhuta vowel sign aa
0114B1 Tirhuta vowel sign i
0114B2 Tirhuta vowel sign ii
0114B3 Tirhuta vowel sign u
0114B4 Tirhuta vowel sign uu
0114B5 Tirhuta vowel sign vocalic r
0114B6 Tirhuta vowel sign vocalic rr
0114B7 Tirhuta vowel sign vocalic l
0114B8 Tirhuta vowel sign vocalic ll
0114B9 Tirhuta vowel sign e
0114BA Tirhuta vowel sign short e
0114BB Tirhuta vowel sign ai
0114BC Tirhuta vowel sign o
0114BD Tirhuta vowel sign short o
0114BE Tirhuta vowel sign au
0114BF Tirhuta sign candrabindu
0114C0 Tirhuta sign anusvara
0114C1 Tirhuta sign visarga
0114C2 Tirhuta sign virama
0114C3 Tirhuta sign nukta
0114C4 Tirhuta sign avagraha
0114C5 Tirhuta gvang
0114C6 Tirhuta abbreviation sign
0114C7 Tirhuta om
0114D0 Tirhuta digit zero
0114D1 Tirhuta digit one
0114D2 Tirhuta digit two
0114D3 Tirhuta digit three
0114D4 Tirhuta digit four
0114D5 Tirhuta digit five
0114D6 Tirhuta digit six
0114D7 Tirhuta digit seven
0114D8 Tirhuta digit eight
0114D9 Tirhuta digit nine
011580 Siddham letter a
011581 Siddham letter aa
011582 Siddham letter i
011583 Siddham letter ii
011584 Siddham letter u
011585 Siddham letter uu
011586 Siddham letter vocalic r
011587 Siddham letter vocalic rr
011588 Siddham letter vocalic l
011589 Siddham letter vocalic ll
01158A Siddham letter e
01158B Siddham letter ai
01158C Siddham letter o
01158D Siddham letter au
01158E Siddham letter ka
01158F Siddham letter kha
011590 Siddham letter ga
011591 Siddham letter gha
011592 Siddham letter nga
011593 Siddham letter ca
011594 Siddham letter cha
011595 Siddham letter ja
011596 Siddham letter jha
011597 Siddham letter nya
011598 Siddham letter tta
011599 Siddham letter ttha
01159A Siddham letter dda
01159B Siddham letter ddha
01159C Siddham letter nna
01159D Siddham letter ta
01159E Siddham letter tha
01159F Siddham letter da
0115A0 Siddham letter dha
0115A1 Siddham letter na
0115A2 Siddham letter pa
0115A3 Siddham letter pha
0115A4 Siddham letter ba
0115A5 Siddham letter bha
0115A6 Siddham letter ma
0115A7 Siddham letter ya
0115A8 Siddham letter ra
0115A9 Siddham letter la
0115AA Siddham letter va
0115AB Siddham letter sha
0115AC Siddham letter ssa
0115AD Siddham letter sa
0115AE Siddham letter ha
0115AF Siddham vowel sign aa
0115B0 Siddham vowel sign i
0115B1 Siddham vowel sign ii
0115B2 Siddham vowel sign u
0115B3 Siddham vowel sign uu
0115B4 Siddham vowel sign vocalic r
0115B5 Siddham vowel sign vocalic rr
0115B8 Siddham vowel sign e
0115B9 Siddham vowel sign ai
0115BA Siddham vowel sign o
0115BB Siddham vowel sign au
0115BC Siddham sign candrabindu
0115BD Siddham sign anusvara
0115BE Siddham sign visarga
0115BF Siddham sign virama
0115C0 Siddham sign nukta
0115C1 Siddham sign siddham
0115C2 Siddham danda
0115C3 Siddham double danda
0115C4 Siddham separator dot
0115C5 Siddham separator bar
0115C6 Siddham repetition mark-1
0115C7 Siddham repetition mark-2
0115C8 Siddham repetition mark-3
0115C9 Siddham end of text mark
0115CA Siddham section mark with trident and u-shaped ornaments
0115CB Siddham section mark with trident and dotted crescents
0115CC Siddham section mark with rays and dotted crescents
0115CD Siddham section mark with rays and dotted double crescents
0115CE Siddham section mark with rays and dotted triple crescents
0115CF Siddham section mark double ring
0115D0 Siddham section mark double ring with rays
0115D1 Siddham section mark with double crescents
0115D2 Siddham section mark with triple crescents
0115D3 Siddham section mark with quadruple crescents
0115D4 Siddham section mark with septuple crescents
0115D5 Siddham section mark with circles and rays
0115D6 Siddham section mark with circles and two enclosures
0115D7 Siddham section mark with circles and four enclosures
0115D8 Siddham letter three-circle alternate i
0115D9 Siddham letter two-circle alternate i
0115DA Siddham letter two-circle alternate ii
0115DB Siddham letter alternate u
0115DC Siddham vowel sign alternate u
0115DD Siddham vowel sign alternate uu
011600 Modi letter a
011601 Modi letter aa
011602 Modi letter i
011603 Modi letter ii
011604 Modi letter u
011605 Modi letter uu
011606 Modi letter vocalic r
011607 Modi letter vocalic rr
011608 Modi letter vocalic l
011609 Modi letter vocalic ll
01160A Modi letter e
01160B Modi letter ai
01160C Modi letter o
01160D Modi letter au
01160E Modi letter ka
01160F Modi letter kha
011610 Modi letter ga
011611 Modi letter gha
011612 Modi letter nga
011613 Modi letter ca
011614 Modi letter cha
011615 Modi letter ja
011616 Modi letter jha
011617 Modi letter nya
011618 Modi letter tta
011619 Modi letter ttha
01161A Modi letter dda
01161B Modi letter ddha
01161C Modi letter nna
01161D Modi letter ta
01161E Modi letter tha
01161F Modi letter da
011620 Modi letter dha
011621 Modi letter na
011622 Modi letter pa
011623 Modi letter pha
011624 Modi letter ba
011625 Modi letter bha
011626 Modi letter ma
011627 Modi letter ya
011628 Modi letter ra
011629 Modi letter la
01162A Modi letter va
01162B Modi letter sha
01162C Modi letter ssa
01162D Modi letter sa
01162E Modi letter ha
01162F Modi letter lla
011630 Modi vowel sign aa
011631 Modi vowel sign i
011632 Modi vowel sign ii
011633 Modi vowel sign u
011634 Modi vowel sign uu
011635 Modi vowel sign vocalic r
011636 Modi vowel sign vocalic rr
011637 Modi vowel sign vocalic l
011638 Modi vowel sign vocalic ll
011639 Modi vowel sign e
01163A Modi vowel sign ai
01163B Modi vowel sign o
01163C Modi vowel sign au
01163D Modi sign anusvara
01163E Modi sign visarga
01163F Modi sign virama
011640 Modi sign ardhacandra
011641 Modi danda
011642 Modi double danda
011643 Modi abbreviation sign
011644 Modi sign huva
011650 Modi digit zero
011651 Modi digit one
011652 Modi digit two
011653 Modi digit three
011654 Modi digit four
011655 Modi digit five
011656 Modi digit six
011657 Modi digit seven
011658 Modi digit eight
011659 Modi digit nine
011660 Mongolian birga with ornament
011661 Mongolian rotated birga
011662 Mongolian double birga with ornament
011663 Mongolian triple birga with ornament
011664 Mongolian birga with double ornament
011665 Mongolian rotated birga with ornament
011666 Mongolian rotated birga with double ornament
011667 Mongolian inverted birga
011668 Mongolian inverted birga with double ornament
011669 Mongolian swirl birga
01166A Mongolian swirl birga with ornament
01166B Mongolian swirl birga with double ornament
01166C Mongolian turned swirl birga with double ornament
011680 Takri letter a
011681 Takri letter aa
011682 Takri letter i
011683 Takri letter ii
011684 Takri letter u
011685 Takri letter uu
011686 Takri letter e
011687 Takri letter ai
011688 Takri letter o
011689 Takri letter au
01168A Takri letter ka
01168B Takri letter kha
01168C Takri letter ga
01168D Takri letter gha
01168E Takri letter nga
01168F Takri letter ca
011690 Takri letter cha
011691 Takri letter ja
011692 Takri letter jha
011693 Takri letter nya
011694 Takri letter tta
011695 Takri letter ttha
011696 Takri letter dda
011697 Takri letter ddha
011698 Takri letter nna
011699 Takri letter ta
01169A Takri letter tha
01169B Takri letter da
01169C Takri letter dha
01169D Takri letter na
01169E Takri letter pa
01169F Takri letter pha
0116A0 Takri letter ba
0116A1 Takri letter bha
0116A2 Takri letter ma
0116A3 Takri letter ya
0116A4 Takri letter ra
0116A5 Takri letter la
0116A6 Takri letter va
0116A7 Takri letter sha
0116A8 Takri letter sa
0116A9 Takri letter ha
0116AA Takri letter rra
0116AB Takri sign anusvara
0116AC Takri sign visarga
0116AD Takri vowel sign aa
0116AE Takri vowel sign i
0116AF Takri vowel sign ii
0116B0 Takri vowel sign u
0116B1 Takri vowel sign uu
0116B2 Takri vowel sign e
0116B3 Takri vowel sign ai
0116B4 Takri vowel sign o
0116B5 Takri vowel sign au
0116B6 Takri sign virama
0116B7 Takri sign nukta
0116B8 Takri letter archaic kha
0116B9 Takri abbreviation sign
0116C0 Takri digit zero
0116C1 Takri digit one
0116C2 Takri digit two
0116C3 Takri digit three
0116C4 Takri digit four
0116C5 Takri digit five
0116C6 Takri digit six
0116C7 Takri digit seven
0116C8 Takri digit eight
0116C9 Takri digit nine
011700 Ahom letter ka
011701 Ahom letter kha
011702 Ahom letter nga
011703 Ahom letter na
011704 Ahom letter ta
011705 Ahom letter alternate ta
011706 Ahom letter pa
011707 Ahom letter pha
011708 Ahom letter ba
011709 Ahom letter ma
01170A Ahom letter ja
01170B Ahom letter cha
01170C Ahom letter tha
01170D Ahom letter ra
01170E Ahom letter la
01170F Ahom letter sa
011710 Ahom letter nya
011711 Ahom letter ha
011712 Ahom letter a
011713 Ahom letter da
011714 Ahom letter dha
011715 Ahom letter ga
011716 Ahom letter alternate ga
011717 Ahom letter gha
011718 Ahom letter bha
011719 Ahom letter jha
01171A Ahom letter alternate ba
01171D Ahom consonant sign medial la
01171E Ahom consonant sign medial ra
01171F Ahom consonant sign medial ligating ra
011720 Ahom vowel sign a
011721 Ahom vowel sign aa
011722 Ahom vowel sign i
011723 Ahom vowel sign ii
011724 Ahom vowel sign u
011725 Ahom vowel sign uu
011726 Ahom vowel sign e
011727 Ahom vowel sign aw
011728 Ahom vowel sign o
011729 Ahom vowel sign ai
01172A Ahom vowel sign am
01172B Ahom sign killer
011730 Ahom digit zero
011731 Ahom digit one
011732 Ahom digit two
011733 Ahom digit three
011734 Ahom digit four
011735 Ahom digit five
011736 Ahom digit six
011737 Ahom digit seven
011738 Ahom digit eight
011739 Ahom digit nine
01173A Ahom number ten
01173B Ahom number twenty
01173C Ahom sign small section
01173D Ahom sign section
01173E Ahom sign rulai
01173F Ahom symbol vi
011740 Ahom letter ca
011741 Ahom letter tta
011742 Ahom letter ttha
011743 Ahom letter dda
011744 Ahom letter ddha
011745 Ahom letter nna
011746 Ahom letter lla
011800 Dogra letter a
011801 Dogra letter aa
011802 Dogra letter i
011803 Dogra letter ii
011804 Dogra letter u
011805 Dogra letter uu
011806 Dogra letter e
011807 Dogra letter ai
011808 Dogra letter o
011809 Dogra letter au
01180A Dogra letter ka
01180B Dogra letter kha
01180C Dogra letter ga
01180D Dogra letter gha
01180E Dogra letter nga
01180F Dogra letter ca
011810 Dogra letter cha
011811 Dogra letter ja
011812 Dogra letter jha
011813 Dogra letter nya
011814 Dogra letter tta
011815 Dogra letter ttha
011816 Dogra letter dda
011817 Dogra letter ddha
011818 Dogra letter nna
011819 Dogra letter ta
";

pub const NAMES_49: &'static str = "01181A Dogra letter tha
01181B Dogra letter da
01181C Dogra letter dha
01181D Dogra letter na
01181E Dogra letter pa
01181F Dogra letter pha
011820 Dogra letter ba
011821 Dogra letter bha
011822 Dogra letter ma
011823 Dogra letter ya
011824 Dogra letter ra
011825 Dogra letter la
011826 Dogra letter va
011827 Dogra letter sha
011828 Dogra letter ssa
011829 Dogra letter sa
01182A Dogra letter ha
01182B Dogra letter rra
01182C Dogra vowel sign aa
01182D Dogra vowel sign i
01182E Dogra vowel sign ii
01182F Dogra vowel sign u
011830 Dogra vowel sign uu
011831 Dogra vowel sign vocalic r
011832 Dogra vowel sign vocalic rr
011833 Dogra vowel sign e
011834 Dogra vowel sign ai
011835 Dogra vowel sign o
011836 Dogra vowel sign au
011837 Dogra sign anusvara
011838 Dogra sign visarga
011839 Dogra sign virama
01183A Dogra sign nukta
01183B Dogra abbreviation sign
0118A0 Warang citi capital letter ngaa
0118A1 Warang citi capital letter a
0118A2 Warang citi capital letter wi
0118A3 Warang citi capital letter yu
0118A4 Warang citi capital letter ya
0118A5 Warang citi capital letter yo
0118A6 Warang citi capital letter ii
0118A7 Warang citi capital letter uu
0118A8 Warang citi capital letter e
0118A9 Warang citi capital letter o
0118AA Warang citi capital letter ang
0118AB Warang citi capital letter ga
0118AC Warang citi capital letter ko
0118AD Warang citi capital letter eny
0118AE Warang citi capital letter yuj
0118AF Warang citi capital letter uc
0118B0 Warang citi capital letter enn
0118B1 Warang citi capital letter odd
0118B2 Warang citi capital letter tte
0118B3 Warang citi capital letter nung
0118B4 Warang citi capital letter da
0118B5 Warang citi capital letter at
0118B6 Warang citi capital letter am
0118B7 Warang citi capital letter bu
0118B8 Warang citi capital letter pu
0118B9 Warang citi capital letter hiyo
0118BA Warang citi capital letter holo
0118BB Warang citi capital letter horr
0118BC Warang citi capital letter har
0118BD Warang citi capital letter ssuu
0118BE Warang citi capital letter sii
0118BF Warang citi capital letter viyo
0118C0 Warang citi small letter ngaa
0118C1 Warang citi small letter a
0118C2 Warang citi small letter wi
0118C3 Warang citi small letter yu
0118C4 Warang citi small letter ya
0118C5 Warang citi small letter yo
0118C6 Warang citi small letter ii
0118C7 Warang citi small letter uu
0118C8 Warang citi small letter e
0118C9 Warang citi small letter o
0118CA Warang citi small letter ang
0118CB Warang citi small letter ga
0118CC Warang citi small letter ko
0118CD Warang citi small letter eny
0118CE Warang citi small letter yuj
0118CF Warang citi small letter uc
0118D0 Warang citi small letter enn
0118D1 Warang citi small letter odd
0118D2 Warang citi small letter tte
0118D3 Warang citi small letter nung
0118D4 Warang citi small letter da
0118D5 Warang citi small letter at
0118D6 Warang citi small letter am
0118D7 Warang citi small letter bu
0118D8 Warang citi small letter pu
0118D9 Warang citi small letter hiyo
0118DA Warang citi small letter holo
0118DB Warang citi small letter horr
0118DC Warang citi small letter har
0118DD Warang citi small letter ssuu
0118DE Warang citi small letter sii
0118DF Warang citi small letter viyo
0118E0 Warang citi digit zero
0118E1 Warang citi digit one
0118E2 Warang citi digit two
0118E3 Warang citi digit three
0118E4 Warang citi digit four
0118E5 Warang citi digit five
0118E6 Warang citi digit six
0118E7 Warang citi digit seven
0118E8 Warang citi digit eight
0118E9 Warang citi digit nine
0118EA Warang citi number ten
0118EB Warang citi number twenty
0118EC Warang citi number thirty
0118ED Warang citi number forty
0118EE Warang citi number fifty
0118EF Warang citi number sixty
0118F0 Warang citi number seventy
0118F1 Warang citi number eighty
0118F2 Warang citi number ninety
0118FF Warang citi om
011900 Dives akuru letter a
011901 Dives akuru letter aa
011902 Dives akuru letter i
011903 Dives akuru letter ii
011904 Dives akuru letter u
011905 Dives akuru letter uu
011906 Dives akuru letter e
011909 Dives akuru letter o
01190C Dives akuru letter ka
01190D Dives akuru letter kha
01190E Dives akuru letter ga
01190F Dives akuru letter gha
011910 Dives akuru letter nga
011911 Dives akuru letter ca
011912 Dives akuru letter cha
011913 Dives akuru letter ja
011915 Dives akuru letter nya
011916 Dives akuru letter tta
011918 Dives akuru letter dda
011919 Dives akuru letter ddha
01191A Dives akuru letter nna
01191B Dives akuru letter ta
01191C Dives akuru letter tha
01191D Dives akuru letter da
01191E Dives akuru letter dha
01191F Dives akuru letter na
011920 Dives akuru letter pa
011921 Dives akuru letter pha
011922 Dives akuru letter ba
011923 Dives akuru letter bha
011924 Dives akuru letter ma
011925 Dives akuru letter ya
011926 Dives akuru letter yya
011927 Dives akuru letter ra
011928 Dives akuru letter la
011929 Dives akuru letter va
01192A Dives akuru letter sha
01192B Dives akuru letter ssa
01192C Dives akuru letter sa
01192D Dives akuru letter ha
01192E Dives akuru letter lla
01192F Dives akuru letter za
011930 Dives akuru vowel sign aa
011931 Dives akuru vowel sign i
011932 Dives akuru vowel sign ii
011933 Dives akuru vowel sign u
011934 Dives akuru vowel sign uu
011935 Dives akuru vowel sign e
011937 Dives akuru vowel sign ai
011938 Dives akuru vowel sign o
01193B Dives akuru sign anusvara
01193C Dives akuru sign candrabindu
01193D Dives akuru sign halanta
01193E Dives akuru virama
01193F Dives akuru prefixed nasal sign
011940 Dives akuru medial ya
011941 Dives akuru initial ra
011942 Dives akuru medial ra
011943 Dives akuru sign nukta
011944 Dives akuru double danda
011945 Dives akuru gap filler
011946 Dives akuru end of text mark
011950 Dives akuru digit zero
011951 Dives akuru digit one
011952 Dives akuru digit two
011953 Dives akuru digit three
011954 Dives akuru digit four
011955 Dives akuru digit five
011956 Dives akuru digit six
011957 Dives akuru digit seven
011958 Dives akuru digit eight
011959 Dives akuru digit nine
0119A0 Nandinagari letter a
0119A1 Nandinagari letter aa
0119A2 Nandinagari letter i
0119A3 Nandinagari letter ii
0119A4 Nandinagari letter u
0119A5 Nandinagari letter uu
0119A6 Nandinagari letter vocalic r
0119A7 Nandinagari letter vocalic rr
0119AA Nandinagari letter e
0119AB Nandinagari letter ai
0119AC Nandinagari letter o
0119AD Nandinagari letter au
0119AE Nandinagari letter ka
0119AF Nandinagari letter kha
0119B0 Nandinagari letter ga
0119B1 Nandinagari letter gha
0119B2 Nandinagari letter nga
0119B3 Nandinagari letter ca
0119B4 Nandinagari letter cha
0119B5 Nandinagari letter ja
0119B6 Nandinagari letter jha
0119B7 Nandinagari letter nya
0119B8 Nandinagari letter tta
0119B9 Nandinagari letter ttha
0119BA Nandinagari letter dda
0119BB Nandinagari letter ddha
0119BC Nandinagari letter nna
0119BD Nandinagari letter ta
0119BE Nandinagari letter tha
0119BF Nandinagari letter da
0119C0 Nandinagari letter dha
0119C1 Nandinagari letter na
0119C2 Nandinagari letter pa
0119C3 Nandinagari letter pha
0119C4 Nandinagari letter ba
0119C5 Nandinagari letter bha
0119C6 Nandinagari letter ma
0119C7 Nandinagari letter ya
0119C8 Nandinagari letter ra
0119C9 Nandinagari letter la
0119CA Nandinagari letter va
0119CB Nandinagari letter sha
0119CC Nandinagari letter ssa
0119CD Nandinagari letter sa
0119CE Nandinagari letter ha
0119CF Nandinagari letter lla
0119D0 Nandinagari letter rra
0119D1 Nandinagari vowel sign aa
0119D2 Nandinagari vowel sign i
0119D3 Nandinagari vowel sign ii
0119D4 Nandinagari vowel sign u
0119D5 Nandinagari vowel sign uu
0119D6 Nandinagari vowel sign vocalic r
0119D7 Nandinagari vowel sign vocalic rr
0119DA Nandinagari vowel sign e
0119DB Nandinagari vowel sign ai
0119DC Nandinagari vowel sign o
0119DD Nandinagari vowel sign au
0119DE Nandinagari sign anusvara
0119DF Nandinagari sign visarga
0119E0 Nandinagari sign virama
0119E1 Nandinagari sign avagraha
0119E2 Nandinagari sign siddham
0119E3 Nandinagari headstroke
0119E4 Nandinagari vowel sign prishthamatra e
011A00 Zanabazar square letter a
011A01 Zanabazar square vowel sign i
011A02 Zanabazar square vowel sign ue
011A03 Zanabazar square vowel sign u
011A04 Zanabazar square vowel sign e
011A05 Zanabazar square vowel sign oe
011A06 Zanabazar square vowel sign o
011A07 Zanabazar square vowel sign ai
011A08 Zanabazar square vowel sign au
011A09 Zanabazar square vowel sign reversed i
011A0A Zanabazar square vowel length mark
011A0B Zanabazar square letter ka
011A0C Zanabazar square letter kha
011A0D Zanabazar square letter ga
011A0E Zanabazar square letter gha
011A0F Zanabazar square letter nga
011A10 Zanabazar square letter ca
011A11 Zanabazar square letter cha
011A12 Zanabazar square letter ja
011A13 Zanabazar square letter nya
011A14 Zanabazar square letter tta
011A15 Zanabazar square letter ttha
011A16 Zanabazar square letter dda
011A17 Zanabazar square letter ddha
011A18 Zanabazar square letter nna
011A19 Zanabazar square letter ta
011A1A Zanabazar square letter tha
011A1B Zanabazar square letter da
011A1C Zanabazar square letter dha
011A1D Zanabazar square letter na
011A1E Zanabazar square letter pa
011A1F Zanabazar square letter pha
011A20 Zanabazar square letter ba
011A21 Zanabazar square letter bha
011A22 Zanabazar square letter ma
011A23 Zanabazar square letter tsa
011A24 Zanabazar square letter tsha
011A25 Zanabazar square letter dza
011A26 Zanabazar square letter dzha
011A27 Zanabazar square letter zha
011A28 Zanabazar square letter za
011A29 Zanabazar square letter -a
011A2A Zanabazar square letter ya
011A2B Zanabazar square letter ra
011A2C Zanabazar square letter la
011A2D Zanabazar square letter va
011A2E Zanabazar square letter sha
011A2F Zanabazar square letter ssa
011A30 Zanabazar square letter sa
011A31 Zanabazar square letter ha
011A32 Zanabazar square letter kssa
011A33 Zanabazar square final consonant mark
011A34 Zanabazar square sign virama
011A35 Zanabazar square sign candrabindu
011A36 Zanabazar square sign candrabindu with ornament
011A37 Zanabazar square sign candra with ornament
011A38 Zanabazar square sign anusvara
011A39 Zanabazar square sign visarga
011A3A Zanabazar square cluster-initial letter ra
011A3B Zanabazar square cluster-final letter ya
011A3C Zanabazar square cluster-final letter ra
011A3D Zanabazar square cluster-final letter la
011A3E Zanabazar square cluster-final letter va
011A3F Zanabazar square initial head mark
011A40 Zanabazar square closing head mark
011A41 Zanabazar square mark tsheg
011A42 Zanabazar square mark shad
011A43 Zanabazar square mark double shad
011A44 Zanabazar square mark long tsheg
011A45 Zanabazar square initial double-lined head mark
011A46 Zanabazar square closing double-lined head mark
011A47 Zanabazar square subjoiner
011A50 Soyombo letter a
011A51 Soyombo vowel sign i
011A52 Soyombo vowel sign ue
011A53 Soyombo vowel sign u
011A54 Soyombo vowel sign e
011A55 Soyombo vowel sign o
011A56 Soyombo vowel sign oe
011A57 Soyombo vowel sign ai
011A58 Soyombo vowel sign au
011A59 Soyombo vowel sign vocalic r
011A5A Soyombo vowel sign vocalic l
011A5B Soyombo vowel length mark
011A5C Soyombo letter ka
011A5D Soyombo letter kha
011A5E Soyombo letter ga
011A5F Soyombo letter gha
011A60 Soyombo letter nga
011A61 Soyombo letter ca
011A62 Soyombo letter cha
011A63 Soyombo letter ja
011A64 Soyombo letter jha
011A65 Soyombo letter nya
011A66 Soyombo letter tta
011A67 Soyombo letter ttha
011A68 Soyombo letter dda
011A69 Soyombo letter ddha
011A6A Soyombo letter nna
011A6B Soyombo letter ta
011A6C Soyombo letter tha
011A6D Soyombo letter da
011A6E Soyombo letter dha
011A6F Soyombo letter na
011A70 Soyombo letter pa
011A71 Soyombo letter pha
011A72 Soyombo letter ba
011A73 Soyombo letter bha
011A74 Soyombo letter ma
011A75 Soyombo letter tsa
011A76 Soyombo letter tsha
011A77 Soyombo letter dza
011A78 Soyombo letter zha
011A79 Soyombo letter za
011A7A Soyombo letter -a
011A7B Soyombo letter ya
011A7C Soyombo letter ra
011A7D Soyombo letter la
011A7E Soyombo letter va
011A7F Soyombo letter sha
011A80 Soyombo letter ssa
011A81 Soyombo letter sa
011A82 Soyombo letter ha
011A83 Soyombo letter kssa
011A84 Soyombo sign jihvamuliya
011A85 Soyombo sign upadhmaniya
011A86 Soyombo cluster-initial letter ra
011A87 Soyombo cluster-initial letter la
011A88 Soyombo cluster-initial letter sha
011A89 Soyombo cluster-initial letter sa
011A8A Soyombo final consonant sign g
011A8B Soyombo final consonant sign k
011A8C Soyombo final consonant sign ng
011A8D Soyombo final consonant sign d
011A8E Soyombo final consonant sign n
011A8F Soyombo final consonant sign b
011A90 Soyombo final consonant sign m
011A91 Soyombo final consonant sign r
011A92 Soyombo final consonant sign l
011A93 Soyombo final consonant sign sh
011A94 Soyombo final consonant sign s
011A95 Soyombo final consonant sign -a
011A96 Soyombo sign anusvara
011A97 Soyombo sign visarga
011A98 Soyombo gemination mark
011A99 Soyombo subjoiner
011A9A Soyombo mark tsheg
011A9B Soyombo mark shad
011A9C Soyombo mark double shad
011A9D Soyombo mark pluta
011A9E Soyombo head mark with moon and sun and triple flame
011A9F Soyombo head mark with moon and sun and flame
011AA0 Soyombo head mark with moon and sun
011AA1 Soyombo terminal mark-1
011AA2 Soyombo terminal mark-2
011AB0 Canadian syllabics nattilik hi
011AB1 Canadian syllabics nattilik hii
011AB2 Canadian syllabics nattilik ho
011AB3 Canadian syllabics nattilik hoo
011AB4 Canadian syllabics nattilik ha
011AB5 Canadian syllabics nattilik haa
011AB6 Canadian syllabics nattilik shri
011AB7 Canadian syllabics nattilik shrii
011AB8 Canadian syllabics nattilik shro
011AB9 Canadian syllabics nattilik shroo
011ABA Canadian syllabics nattilik shra
011ABB Canadian syllabics nattilik shraa
011ABC Canadian syllabics spe
011ABD Canadian syllabics spi
011ABE Canadian syllabics spo
011ABF Canadian syllabics spa
011AC0 Pau cin hau letter pa
011AC1 Pau cin hau letter ka
011AC2 Pau cin hau letter la
011AC3 Pau cin hau letter ma
011AC4 Pau cin hau letter da
";

pub const NAMES_50: &'static str = "011AC5 Pau cin hau letter za
011AC6 Pau cin hau letter va
011AC7 Pau cin hau letter nga
011AC8 Pau cin hau letter ha
011AC9 Pau cin hau letter ga
011ACA Pau cin hau letter kha
011ACB Pau cin hau letter sa
011ACC Pau cin hau letter ba
011ACD Pau cin hau letter ca
011ACE Pau cin hau letter ta
011ACF Pau cin hau letter tha
011AD0 Pau cin hau letter na
011AD1 Pau cin hau letter pha
011AD2 Pau cin hau letter ra
011AD3 Pau cin hau letter fa
011AD4 Pau cin hau letter cha
011AD5 Pau cin hau letter a
011AD6 Pau cin hau letter e
011AD7 Pau cin hau letter i
011AD8 Pau cin hau letter o
011AD9 Pau cin hau letter u
011ADA Pau cin hau letter ua
011ADB Pau cin hau letter ia
011ADC Pau cin hau letter final p
011ADD Pau cin hau letter final k
011ADE Pau cin hau letter final t
011ADF Pau cin hau letter final m
011AE0 Pau cin hau letter final n
011AE1 Pau cin hau letter final l
011AE2 Pau cin hau letter final w
011AE3 Pau cin hau letter final ng
011AE4 Pau cin hau letter final y
011AE5 Pau cin hau rising tone long
011AE6 Pau cin hau rising tone
011AE7 Pau cin hau sandhi glottal stop
011AE8 Pau cin hau rising tone long final
011AE9 Pau cin hau rising tone final
011AEA Pau cin hau sandhi glottal stop final
011AEB Pau cin hau sandhi tone long
011AEC Pau cin hau sandhi tone
011AED Pau cin hau sandhi tone long final
011AEE Pau cin hau sandhi tone final
011AEF Pau cin hau mid-level tone
011AF0 Pau cin hau glottal stop variant
011AF1 Pau cin hau mid-level tone long final
011AF2 Pau cin hau mid-level tone final
011AF3 Pau cin hau low-falling tone long
011AF4 Pau cin hau low-falling tone
011AF5 Pau cin hau glottal stop
011AF6 Pau cin hau low-falling tone long final
011AF7 Pau cin hau low-falling tone final
011AF8 Pau cin hau glottal stop final
011C00 Bhaiksuki letter a
011C01 Bhaiksuki letter aa
011C02 Bhaiksuki letter i
011C03 Bhaiksuki letter ii
011C04 Bhaiksuki letter u
011C05 Bhaiksuki letter uu
011C06 Bhaiksuki letter vocalic r
011C07 Bhaiksuki letter vocalic rr
011C08 Bhaiksuki letter vocalic l
011C0A Bhaiksuki letter e
011C0B Bhaiksuki letter ai
011C0C Bhaiksuki letter o
011C0D Bhaiksuki letter au
011C0E Bhaiksuki letter ka
011C0F Bhaiksuki letter kha
011C10 Bhaiksuki letter ga
011C11 Bhaiksuki letter gha
011C12 Bhaiksuki letter nga
011C13 Bhaiksuki letter ca
011C14 Bhaiksuki letter cha
011C15 Bhaiksuki letter ja
011C16 Bhaiksuki letter jha
011C17 Bhaiksuki letter nya
011C18 Bhaiksuki letter tta
011C19 Bhaiksuki letter ttha
011C1A Bhaiksuki letter dda
011C1B Bhaiksuki letter ddha
011C1C Bhaiksuki letter nna
011C1D Bhaiksuki letter ta
011C1E Bhaiksuki letter tha
011C1F Bhaiksuki letter da
011C20 Bhaiksuki letter dha
011C21 Bhaiksuki letter na
011C22 Bhaiksuki letter pa
011C23 Bhaiksuki letter pha
011C24 Bhaiksuki letter ba
011C25 Bhaiksuki letter bha
011C26 Bhaiksuki letter ma
011C27 Bhaiksuki letter ya
011C28 Bhaiksuki letter ra
011C29 Bhaiksuki letter la
011C2A Bhaiksuki letter va
011C2B Bhaiksuki letter sha
011C2C Bhaiksuki letter ssa
011C2D Bhaiksuki letter sa
011C2E Bhaiksuki letter ha
011C2F Bhaiksuki vowel sign aa
011C30 Bhaiksuki vowel sign i
011C31 Bhaiksuki vowel sign ii
011C32 Bhaiksuki vowel sign u
011C33 Bhaiksuki vowel sign uu
011C34 Bhaiksuki vowel sign vocalic r
011C35 Bhaiksuki vowel sign vocalic rr
011C36 Bhaiksuki vowel sign vocalic l
011C38 Bhaiksuki vowel sign e
011C39 Bhaiksuki vowel sign ai
011C3A Bhaiksuki vowel sign o
011C3B Bhaiksuki vowel sign au
011C3C Bhaiksuki sign candrabindu
011C3D Bhaiksuki sign anusvara
011C3E Bhaiksuki sign visarga
011C3F Bhaiksuki sign virama
011C40 Bhaiksuki sign avagraha
011C41 Bhaiksuki danda
011C42 Bhaiksuki double danda
011C43 Bhaiksuki word separator
011C44 Bhaiksuki gap filler-1
011C45 Bhaiksuki gap filler-2
011C50 Bhaiksuki digit zero
011C51 Bhaiksuki digit one
011C52 Bhaiksuki digit two
011C53 Bhaiksuki digit three
011C54 Bhaiksuki digit four
011C55 Bhaiksuki digit five
011C56 Bhaiksuki digit six
011C57 Bhaiksuki digit seven
011C58 Bhaiksuki digit eight
011C59 Bhaiksuki digit nine
011C5A Bhaiksuki number one
011C5B Bhaiksuki number two
011C5C Bhaiksuki number three
011C5D Bhaiksuki number four
011C5E Bhaiksuki number five
011C5F Bhaiksuki number six
011C60 Bhaiksuki number seven
011C61 Bhaiksuki number eight
011C62 Bhaiksuki number nine
011C63 Bhaiksuki number ten
011C64 Bhaiksuki number twenty
011C65 Bhaiksuki number thirty
011C66 Bhaiksuki number forty
011C67 Bhaiksuki number fifty
011C68 Bhaiksuki number sixty
011C69 Bhaiksuki number seventy
011C6A Bhaiksuki number eighty
011C6B Bhaiksuki number ninety
011C6C Bhaiksuki hundreds unit mark
011C70 Marchen head mark
011C71 Marchen mark shad
011C72 Marchen letter ka
011C73 Marchen letter kha
011C74 Marchen letter ga
011C75 Marchen letter nga
011C76 Marchen letter ca
011C77 Marchen letter cha
011C78 Marchen letter ja
011C79 Marchen letter nya
011C7A Marchen letter ta
011C7B Marchen letter tha
011C7C Marchen letter da
011C7D Marchen letter na
011C7E Marchen letter pa
011C7F Marchen letter pha
011C80 Marchen letter ba
011C81 Marchen letter ma
011C82 Marchen letter tsa
011C83 Marchen letter tsha
011C84 Marchen letter dza
011C85 Marchen letter wa
011C86 Marchen letter zha
011C87 Marchen letter za
011C88 Marchen letter -a
011C89 Marchen letter ya
011C8A Marchen letter ra
011C8B Marchen letter la
011C8C Marchen letter sha
011C8D Marchen letter sa
011C8E Marchen letter ha
011C8F Marchen letter a
011C92 Marchen subjoined letter ka
011C93 Marchen subjoined letter kha
011C94 Marchen subjoined letter ga
011C95 Marchen subjoined letter nga
011C96 Marchen subjoined letter ca
011C97 Marchen subjoined letter cha
011C98 Marchen subjoined letter ja
011C99 Marchen subjoined letter nya
011C9A Marchen subjoined letter ta
011C9B Marchen subjoined letter tha
011C9C Marchen subjoined letter da
011C9D Marchen subjoined letter na
011C9E Marchen subjoined letter pa
011C9F Marchen subjoined letter pha
011CA0 Marchen subjoined letter ba
011CA1 Marchen subjoined letter ma
011CA2 Marchen subjoined letter tsa
011CA3 Marchen subjoined letter tsha
011CA4 Marchen subjoined letter dza
011CA5 Marchen subjoined letter wa
011CA6 Marchen subjoined letter zha
011CA7 Marchen subjoined letter za
011CA9 Marchen subjoined letter ya
011CAA Marchen subjoined letter ra
011CAB Marchen subjoined letter la
011CAC Marchen subjoined letter sha
011CAD Marchen subjoined letter sa
011CAE Marchen subjoined letter ha
011CAF Marchen subjoined letter a
011CB0 Marchen vowel sign aa
011CB1 Marchen vowel sign i
011CB2 Marchen vowel sign u
011CB3 Marchen vowel sign e
011CB4 Marchen vowel sign o
011CB5 Marchen sign anusvara
011CB6 Marchen sign candrabindu
011D00 Masaram gondi letter a
011D01 Masaram gondi letter aa
011D02 Masaram gondi letter i
011D03 Masaram gondi letter ii
011D04 Masaram gondi letter u
011D05 Masaram gondi letter uu
011D06 Masaram gondi letter e
011D08 Masaram gondi letter ai
011D09 Masaram gondi letter o
011D0B Masaram gondi letter au
011D0C Masaram gondi letter ka
011D0D Masaram gondi letter kha
011D0E Masaram gondi letter ga
011D0F Masaram gondi letter gha
011D10 Masaram gondi letter nga
011D11 Masaram gondi letter ca
011D12 Masaram gondi letter cha
011D13 Masaram gondi letter ja
011D14 Masaram gondi letter jha
011D15 Masaram gondi letter nya
011D16 Masaram gondi letter tta
011D17 Masaram gondi letter ttha
011D18 Masaram gondi letter dda
011D19 Masaram gondi letter ddha
011D1A Masaram gondi letter nna
011D1B Masaram gondi letter ta
011D1C Masaram gondi letter tha
011D1D Masaram gondi letter da
011D1E Masaram gondi letter dha
011D1F Masaram gondi letter na
011D20 Masaram gondi letter pa
011D21 Masaram gondi letter pha
011D22 Masaram gondi letter ba
011D23 Masaram gondi letter bha
011D24 Masaram gondi letter ma
011D25 Masaram gondi letter ya
011D26 Masaram gondi letter ra
011D27 Masaram gondi letter la
011D28 Masaram gondi letter va
011D29 Masaram gondi letter sha
011D2A Masaram gondi letter ssa
011D2B Masaram gondi letter sa
011D2C Masaram gondi letter ha
011D2D Masaram gondi letter lla
011D2E Masaram gondi letter kssa
011D2F Masaram gondi letter jnya
011D30 Masaram gondi letter tra
011D31 Masaram gondi vowel sign aa
011D32 Masaram gondi vowel sign i
011D33 Masaram gondi vowel sign ii
011D34 Masaram gondi vowel sign u
011D35 Masaram gondi vowel sign uu
011D36 Masaram gondi vowel sign vocalic r
011D3A Masaram gondi vowel sign e
011D3C Masaram gondi vowel sign ai
011D3D Masaram gondi vowel sign o
011D3F Masaram gondi vowel sign au
011D40 Masaram gondi sign anusvara
011D41 Masaram gondi sign visarga
011D42 Masaram gondi sign nukta
011D43 Masaram gondi sign candra
011D44 Masaram gondi sign halanta
011D45 Masaram gondi virama
011D46 Masaram gondi repha
011D47 Masaram gondi ra-kara
011D50 Masaram gondi digit zero
011D51 Masaram gondi digit one
011D52 Masaram gondi digit two
011D53 Masaram gondi digit three
011D54 Masaram gondi digit four
011D55 Masaram gondi digit five
011D56 Masaram gondi digit six
011D57 Masaram gondi digit seven
011D58 Masaram gondi digit eight
011D59 Masaram gondi digit nine
011D60 Gunjala gondi letter a
011D61 Gunjala gondi letter aa
011D62 Gunjala gondi letter i
011D63 Gunjala gondi letter ii
011D64 Gunjala gondi letter u
011D65 Gunjala gondi letter uu
011D67 Gunjala gondi letter ee
011D68 Gunjala gondi letter ai
011D6A Gunjala gondi letter oo
011D6B Gunjala gondi letter au
011D6C Gunjala gondi letter ya
011D6D Gunjala gondi letter va
011D6E Gunjala gondi letter ba
011D6F Gunjala gondi letter bha
011D70 Gunjala gondi letter ma
011D71 Gunjala gondi letter ka
011D72 Gunjala gondi letter kha
011D73 Gunjala gondi letter ta
011D74 Gunjala gondi letter tha
011D75 Gunjala gondi letter la
011D76 Gunjala gondi letter ga
011D77 Gunjala gondi letter gha
011D78 Gunjala gondi letter da
011D79 Gunjala gondi letter dha
011D7A Gunjala gondi letter na
011D7B Gunjala gondi letter ca
011D7C Gunjala gondi letter cha
011D7D Gunjala gondi letter tta
011D7E Gunjala gondi letter ttha
011D7F Gunjala gondi letter lla
011D80 Gunjala gondi letter ja
011D81 Gunjala gondi letter jha
011D82 Gunjala gondi letter dda
011D83 Gunjala gondi letter ddha
011D84 Gunjala gondi letter nga
011D85 Gunjala gondi letter pa
011D86 Gunjala gondi letter pha
011D87 Gunjala gondi letter ha
011D88 Gunjala gondi letter ra
011D89 Gunjala gondi letter sa
011D8A Gunjala gondi vowel sign aa
011D8B Gunjala gondi vowel sign i
011D8C Gunjala gondi vowel sign ii
011D8D Gunjala gondi vowel sign u
011D8E Gunjala gondi vowel sign uu
011D90 Gunjala gondi vowel sign ee
011D91 Gunjala gondi vowel sign ai
011D93 Gunjala gondi vowel sign oo
011D94 Gunjala gondi vowel sign au
011D95 Gunjala gondi sign anusvara
011D96 Gunjala gondi sign visarga
011D97 Gunjala gondi virama
011D98 Gunjala gondi om
011DA0 Gunjala gondi digit zero
011DA1 Gunjala gondi digit one
011DA2 Gunjala gondi digit two
011DA3 Gunjala gondi digit three
011DA4 Gunjala gondi digit four
011DA5 Gunjala gondi digit five
011DA6 Gunjala gondi digit six
011DA7 Gunjala gondi digit seven
011DA8 Gunjala gondi digit eight
011DA9 Gunjala gondi digit nine
011EE0 Makasar letter ka
011EE1 Makasar letter ga
011EE2 Makasar letter nga
011EE3 Makasar letter pa
011EE4 Makasar letter ba
011EE5 Makasar letter ma
011EE6 Makasar letter ta
011EE7 Makasar letter da
011EE8 Makasar letter na
011EE9 Makasar letter ca
011EEA Makasar letter ja
011EEB Makasar letter nya
011EEC Makasar letter ya
011EED Makasar letter ra
011EEE Makasar letter la
011EEF Makasar letter va
011EF0 Makasar letter sa
011EF1 Makasar letter a
011EF2 Makasar angka
011EF3 Makasar vowel sign i
011EF4 Makasar vowel sign u
011EF5 Makasar vowel sign e
011EF6 Makasar vowel sign o
011EF7 Makasar passimbang
011EF8 Makasar end of section
011FB0 Lisu letter yha
011FC0 Tamil fraction one three-hundred-and-twentieth
011FC1 Tamil fraction one one-hundred-and-sixtieth
011FC2 Tamil fraction one eightieth
011FC3 Tamil fraction one sixty-fourth
011FC4 Tamil fraction one fortieth
011FC5 Tamil fraction one thirty-second
011FC6 Tamil fraction three eightieths
011FC7 Tamil fraction three sixty-fourths
011FC8 Tamil fraction one twentieth
011FC9 Tamil fraction one sixteenth-1
011FCA Tamil fraction one sixteenth-2
011FCB Tamil fraction one tenth
011FCC Tamil fraction one eighth
011FCD Tamil fraction three twentieths
011FCE Tamil fraction three sixteenths
011FCF Tamil fraction one fifth
011FD0 Tamil fraction one quarter
011FD1 Tamil fraction one half-1
011FD2 Tamil fraction one half-2
011FD3 Tamil fraction three quarters
011FD4 Tamil fraction downscaling factor kiizh
011FD5 Tamil sign nel
011FD6 Tamil sign cevitu
011FD7 Tamil sign aazhaakku
011FD8 Tamil sign uzhakku
011FD9 Tamil sign muuvuzhakku
011FDA Tamil sign kuruni
011FDB Tamil sign pathakku
011FDC Tamil sign mukkuruni
011FDD Tamil sign kaacu
011FDE Tamil sign panam
011FDF Tamil sign pon
011FE0 Tamil sign varaakan
011FE1 Tamil sign paaram
011FE2 Tamil sign kuzhi
011FE3 Tamil sign veli
011FE4 Tamil wet cultivation sign
011FE5 Tamil dry cultivation sign
011FE6 Tamil land sign
011FE7 Tamil salt pan sign
011FE8 Tamil traditional credit sign
011FE9 Tamil traditional number sign
011FEA Tamil current sign
011FEB Tamil and odd sign
011FEC Tamil spent sign
011FED Tamil total sign
011FEE Tamil in possession sign
011FEF Tamil starting from sign
011FF0 Tamil sign muthaliya
011FF1 Tamil sign vakaiyaraa
011FFF Tamil punctuation end of text
012000 Cuneiform sign a
012001 Cuneiform sign a times a
012002 Cuneiform sign a times bad
012003 Cuneiform sign a times gan2 tenu
012004 Cuneiform sign a times ha
012005 Cuneiform sign a times igi
012006 Cuneiform sign a times lagar gunu
012007 Cuneiform sign a times mush
012008 Cuneiform sign a times sag
012009 Cuneiform sign a2
01200A Cuneiform sign ab
01200B Cuneiform sign ab times ash2
01200C Cuneiform sign ab times dun3 gunu
01200D Cuneiform sign ab times gal
01200E Cuneiform sign ab times gan2 tenu
01200F Cuneiform sign ab times ha
012010 Cuneiform sign ab times igi gunu
012011 Cuneiform sign ab times imin
012012 Cuneiform sign ab times lagab
";

pub const NAMES_51: &'static str = "012013 Cuneiform sign ab times shesh
012014 Cuneiform sign ab times u plus u plus u
012015 Cuneiform sign ab gunu
012016 Cuneiform sign ab2
012017 Cuneiform sign ab2 times balag
012018 Cuneiform sign ab2 times gan2 tenu
012019 Cuneiform sign ab2 times me plus en
01201A Cuneiform sign ab2 times sha3
01201B Cuneiform sign ab2 times tak4
01201C Cuneiform sign ad
01201D Cuneiform sign ak
01201E Cuneiform sign ak times erin2
01201F Cuneiform sign ak times shita plus gish
012020 Cuneiform sign al
012021 Cuneiform sign al times al
012022 Cuneiform sign al times dim2
012023 Cuneiform sign al times gish
012024 Cuneiform sign al times ha
012025 Cuneiform sign al times kad3
012026 Cuneiform sign al times ki
012027 Cuneiform sign al times she
012028 Cuneiform sign al times ush
012029 Cuneiform sign alan
01202A Cuneiform sign aleph
01202B Cuneiform sign amar
01202C Cuneiform sign amar times she
01202D Cuneiform sign an
01202E Cuneiform sign an over an
01202F Cuneiform sign an three times
012030 Cuneiform sign an plus naga opposing an plus naga
012031 Cuneiform sign an plus naga squared
012032 Cuneiform sign anshe
012033 Cuneiform sign apin
012034 Cuneiform sign arad
012035 Cuneiform sign arad times kur
012036 Cuneiform sign arkab
012037 Cuneiform sign asal2
012038 Cuneiform sign ash
012039 Cuneiform sign ash zida tenu
01203A Cuneiform sign ash kaba tenu
01203B Cuneiform sign ash over ash tug2 over tug2 tug2 over tug2 pap
01203C Cuneiform sign ash over ash over ash
01203D Cuneiform sign ash over ash over ash crossing ash over ash over ash
01203E Cuneiform sign ash2
01203F Cuneiform sign ashgab
012040 Cuneiform sign ba
012041 Cuneiform sign bad
012042 Cuneiform sign bag3
012043 Cuneiform sign bahar2
012044 Cuneiform sign bal
012045 Cuneiform sign bal over bal
012046 Cuneiform sign balag
012047 Cuneiform sign bar
012048 Cuneiform sign bara2
012049 Cuneiform sign bi
01204A Cuneiform sign bi times a
01204B Cuneiform sign bi times gar
01204C Cuneiform sign bi times igi gunu
01204D Cuneiform sign bu
01204E Cuneiform sign bu over bu ab
01204F Cuneiform sign bu over bu un
012050 Cuneiform sign bu crossing bu
012051 Cuneiform sign bulug
012052 Cuneiform sign bulug over bulug
012053 Cuneiform sign bur
012054 Cuneiform sign bur2
012055 Cuneiform sign da
012056 Cuneiform sign dag
012057 Cuneiform sign dag kisim5 times a plus mash
012058 Cuneiform sign dag kisim5 times amar
012059 Cuneiform sign dag kisim5 times balag
01205A Cuneiform sign dag kisim5 times bi
01205B Cuneiform sign dag kisim5 times ga
01205C Cuneiform sign dag kisim5 times ga plus mash
01205D Cuneiform sign dag kisim5 times gi
01205E Cuneiform sign dag kisim5 times gir2
01205F Cuneiform sign dag kisim5 times gud
012060 Cuneiform sign dag kisim5 times ha
012061 Cuneiform sign dag kisim5 times ir
012062 Cuneiform sign dag kisim5 times ir plus lu
012063 Cuneiform sign dag kisim5 times kak
012064 Cuneiform sign dag kisim5 times la
012065 Cuneiform sign dag kisim5 times lu
012066 Cuneiform sign dag kisim5 times lu plus mash2
012067 Cuneiform sign dag kisim5 times lum
012068 Cuneiform sign dag kisim5 times ne
012069 Cuneiform sign dag kisim5 times pap plus pap
01206A Cuneiform sign dag kisim5 times si
01206B Cuneiform sign dag kisim5 times tak4
01206C Cuneiform sign dag kisim5 times u2 plus gir2
01206D Cuneiform sign dag kisim5 times ush
01206E Cuneiform sign dam
01206F Cuneiform sign dar
012070 Cuneiform sign dara3
012071 Cuneiform sign dara4
012072 Cuneiform sign di
012073 Cuneiform sign dib
012074 Cuneiform sign dim
012075 Cuneiform sign dim times she
012076 Cuneiform sign dim2
012077 Cuneiform sign din
012078 Cuneiform sign din kaskal u gunu dish
012079 Cuneiform sign dish
01207A Cuneiform sign du
01207B Cuneiform sign du over du
01207C Cuneiform sign du gunu
01207D Cuneiform sign du sheshig
01207E Cuneiform sign dub
01207F Cuneiform sign dub times esh2
012080 Cuneiform sign dub2
012081 Cuneiform sign dug
012082 Cuneiform sign dugud
012083 Cuneiform sign duh
012084 Cuneiform sign dun
012085 Cuneiform sign dun3
012086 Cuneiform sign dun3 gunu
012087 Cuneiform sign dun3 gunu gunu
012088 Cuneiform sign dun4
012089 Cuneiform sign dur2
01208A Cuneiform sign e
01208B Cuneiform sign e times pap
01208C Cuneiform sign e over e nun over nun
01208D Cuneiform sign e2
01208E Cuneiform sign e2 times a plus ha plus da
01208F Cuneiform sign e2 times gar
012090 Cuneiform sign e2 times mi
012091 Cuneiform sign e2 times sal
012092 Cuneiform sign e2 times she
012093 Cuneiform sign e2 times u
012094 Cuneiform sign edin
012095 Cuneiform sign egir
012096 Cuneiform sign el
012097 Cuneiform sign en
012098 Cuneiform sign en times gan2
012099 Cuneiform sign en times gan2 tenu
01209A Cuneiform sign en times me
01209B Cuneiform sign en crossing en
01209C Cuneiform sign en opposing en
01209D Cuneiform sign en squared
01209E Cuneiform sign eren
01209F Cuneiform sign erin2
0120A0 Cuneiform sign esh2
0120A1 Cuneiform sign ezen
0120A2 Cuneiform sign ezen times a
0120A3 Cuneiform sign ezen times a plus lal
0120A4 Cuneiform sign ezen times a plus lal times lal
0120A5 Cuneiform sign ezen times an
0120A6 Cuneiform sign ezen times bad
0120A7 Cuneiform sign ezen times dun3 gunu
0120A8 Cuneiform sign ezen times dun3 gunu gunu
0120A9 Cuneiform sign ezen times ha
0120AA Cuneiform sign ezen times ha gunu
0120AB Cuneiform sign ezen times igi gunu
0120AC Cuneiform sign ezen times kaskal
0120AD Cuneiform sign ezen times kaskal squared
0120AE Cuneiform sign ezen times ku3
0120AF Cuneiform sign ezen times la
0120B0 Cuneiform sign ezen times lal times lal
0120B1 Cuneiform sign ezen times li
0120B2 Cuneiform sign ezen times lu
0120B3 Cuneiform sign ezen times u2
0120B4 Cuneiform sign ezen times ud
0120B5 Cuneiform sign ga
0120B6 Cuneiform sign ga gunu
0120B7 Cuneiform sign ga2
0120B8 Cuneiform sign ga2 times a plus da plus ha
0120B9 Cuneiform sign ga2 times a plus ha
0120BA Cuneiform sign ga2 times a plus igi
0120BB Cuneiform sign ga2 times ab2 tenu plus tab
0120BC Cuneiform sign ga2 times an
0120BD Cuneiform sign ga2 times ash
0120BE Cuneiform sign ga2 times ash2 plus gal
0120BF Cuneiform sign ga2 times bad
0120C0 Cuneiform sign ga2 times bar plus ra
0120C1 Cuneiform sign ga2 times bur
0120C2 Cuneiform sign ga2 times bur plus ra
0120C3 Cuneiform sign ga2 times da
0120C4 Cuneiform sign ga2 times di
0120C5 Cuneiform sign ga2 times dim times she
0120C6 Cuneiform sign ga2 times dub
0120C7 Cuneiform sign ga2 times el
0120C8 Cuneiform sign ga2 times el plus la
0120C9 Cuneiform sign ga2 times en
0120CA Cuneiform sign ga2 times en times gan2 tenu
0120CB Cuneiform sign ga2 times gan2 tenu
0120CC Cuneiform sign ga2 times gar
0120CD Cuneiform sign ga2 times gi
0120CE Cuneiform sign ga2 times gi4
0120CF Cuneiform sign ga2 times gi4 plus a
0120D0 Cuneiform sign ga2 times gir2 plus su
0120D1 Cuneiform sign ga2 times ha plus lu plus esh2
0120D2 Cuneiform sign ga2 times hal
0120D3 Cuneiform sign ga2 times hal plus la
0120D4 Cuneiform sign ga2 times hi plus li
0120D5 Cuneiform sign ga2 times hub2
0120D6 Cuneiform sign ga2 times igi gunu
0120D7 Cuneiform sign ga2 times ish plus hu plus ash
0120D8 Cuneiform sign ga2 times kak
0120D9 Cuneiform sign ga2 times kaskal
0120DA Cuneiform sign ga2 times kid
0120DB Cuneiform sign ga2 times kid plus lal
0120DC Cuneiform sign ga2 times ku3 plus an
0120DD Cuneiform sign ga2 times la
0120DE Cuneiform sign ga2 times me plus en
0120DF Cuneiform sign ga2 times mi
0120E0 Cuneiform sign ga2 times nun
0120E1 Cuneiform sign ga2 times nun over nun
0120E2 Cuneiform sign ga2 times pa
0120E3 Cuneiform sign ga2 times sal
0120E4 Cuneiform sign ga2 times sar
0120E5 Cuneiform sign ga2 times she
0120E6 Cuneiform sign ga2 times she plus tur
0120E7 Cuneiform sign ga2 times shid
0120E8 Cuneiform sign ga2 times sum
0120E9 Cuneiform sign ga2 times tak4
0120EA Cuneiform sign ga2 times u
0120EB Cuneiform sign ga2 times ud
0120EC Cuneiform sign ga2 times ud plus du
0120ED Cuneiform sign ga2 over ga2
0120EE Cuneiform sign gaba
0120EF Cuneiform sign gaba crossing gaba
0120F0 Cuneiform sign gad
0120F1 Cuneiform sign gad over gad gar over gar
0120F2 Cuneiform sign gal
0120F3 Cuneiform sign gal gad over gad gar over gar
0120F4 Cuneiform sign galam
0120F5 Cuneiform sign gam
0120F6 Cuneiform sign gan
0120F7 Cuneiform sign gan2
0120F8 Cuneiform sign gan2 tenu
0120F9 Cuneiform sign gan2 over gan2
0120FA Cuneiform sign gan2 crossing gan2
0120FB Cuneiform sign gar
0120FC Cuneiform sign gar3
0120FD Cuneiform sign gashan
0120FE Cuneiform sign geshtin
0120FF Cuneiform sign geshtin times kur
012100 Cuneiform sign gi
012101 Cuneiform sign gi times e
012102 Cuneiform sign gi times u
012103 Cuneiform sign gi crossing gi
012104 Cuneiform sign gi4
012105 Cuneiform sign gi4 over gi4
012106 Cuneiform sign gi4 crossing gi4
012107 Cuneiform sign gidim
012108 Cuneiform sign gir2
012109 Cuneiform sign gir2 gunu
01210A Cuneiform sign gir3
01210B Cuneiform sign gir3 times a plus igi
01210C Cuneiform sign gir3 times gan2 tenu
01210D Cuneiform sign gir3 times igi
01210E Cuneiform sign gir3 times lu plus igi
01210F Cuneiform sign gir3 times pa
012110 Cuneiform sign gisal
012111 Cuneiform sign gish
012112 Cuneiform sign gish crossing gish
012113 Cuneiform sign gish times bad
012114 Cuneiform sign gish times tak4
012115 Cuneiform sign gish tenu
012116 Cuneiform sign gu
012117 Cuneiform sign gu crossing gu
012118 Cuneiform sign gu2
012119 Cuneiform sign gu2 times kak
01211A Cuneiform sign gu2 times kak times igi gunu
01211B Cuneiform sign gu2 times nun
01211C Cuneiform sign gu2 times sal plus tug2
01211D Cuneiform sign gu2 gunu
01211E Cuneiform sign gud
01211F Cuneiform sign gud times a plus kur
012120 Cuneiform sign gud times kur
012121 Cuneiform sign gud over gud lugal
012122 Cuneiform sign gul
012123 Cuneiform sign gum
012124 Cuneiform sign gum times she
012125 Cuneiform sign gur
012126 Cuneiform sign gur7
012127 Cuneiform sign gurun
012128 Cuneiform sign gurush
012129 Cuneiform sign ha
01212A Cuneiform sign ha tenu
01212B Cuneiform sign ha gunu
01212C Cuneiform sign hal
01212D Cuneiform sign hi
01212E Cuneiform sign hi times ash
01212F Cuneiform sign hi times ash2
012130 Cuneiform sign hi times bad
012131 Cuneiform sign hi times dish
012132 Cuneiform sign hi times gad
012133 Cuneiform sign hi times kin
012134 Cuneiform sign hi times nun
012135 Cuneiform sign hi times she
012136 Cuneiform sign hi times u
012137 Cuneiform sign hu
012138 Cuneiform sign hub2
012139 Cuneiform sign hub2 times an
01213A Cuneiform sign hub2 times hal
01213B Cuneiform sign hub2 times kaskal
01213C Cuneiform sign hub2 times lish
01213D Cuneiform sign hub2 times ud
01213E Cuneiform sign hul2
01213F Cuneiform sign i
012140 Cuneiform sign i a
012141 Cuneiform sign ib
012142 Cuneiform sign idim
012143 Cuneiform sign idim over idim bur
012144 Cuneiform sign idim over idim squared
012145 Cuneiform sign ig
012146 Cuneiform sign igi
012147 Cuneiform sign igi dib
012148 Cuneiform sign igi ri
012149 Cuneiform sign igi over igi shir over shir ud over ud
01214A Cuneiform sign igi gunu
01214B Cuneiform sign il
01214C Cuneiform sign il times gan2 tenu
01214D Cuneiform sign il2
01214E Cuneiform sign im
01214F Cuneiform sign im times tak4
012150 Cuneiform sign im crossing im
012151 Cuneiform sign im opposing im
012152 Cuneiform sign im squared
012153 Cuneiform sign imin
012154 Cuneiform sign in
012155 Cuneiform sign ir
012156 Cuneiform sign ish
012157 Cuneiform sign ka
012158 Cuneiform sign ka times a
012159 Cuneiform sign ka times ad
01215A Cuneiform sign ka times ad plus ku3
01215B Cuneiform sign ka times ash2
01215C Cuneiform sign ka times bad
01215D Cuneiform sign ka times balag
01215E Cuneiform sign ka times bar
01215F Cuneiform sign ka times bi
012160 Cuneiform sign ka times erin2
012161 Cuneiform sign ka times esh2
012162 Cuneiform sign ka times ga
012163 Cuneiform sign ka times gal
012164 Cuneiform sign ka times gan2 tenu
012165 Cuneiform sign ka times gar
012166 Cuneiform sign ka times gar plus sha3 plus a
012167 Cuneiform sign ka times gi
012168 Cuneiform sign ka times gir2
012169 Cuneiform sign ka times gish plus sar
01216A Cuneiform sign ka times gish crossing gish
01216B Cuneiform sign ka times gu
01216C Cuneiform sign ka times gur7
01216D Cuneiform sign ka times igi
01216E Cuneiform sign ka times im
01216F Cuneiform sign ka times kak
012170 Cuneiform sign ka times ki
012171 Cuneiform sign ka times kid
012172 Cuneiform sign ka times li
012173 Cuneiform sign ka times lu
012174 Cuneiform sign ka times me
012175 Cuneiform sign ka times me plus du
012176 Cuneiform sign ka times me plus gi
012177 Cuneiform sign ka times me plus te
012178 Cuneiform sign ka times mi
012179 Cuneiform sign ka times mi plus nunuz
01217A Cuneiform sign ka times ne
01217B Cuneiform sign ka times nun
01217C Cuneiform sign ka times pi
01217D Cuneiform sign ka times ru
01217E Cuneiform sign ka times sa
01217F Cuneiform sign ka times sar
012180 Cuneiform sign ka times sha
012181 Cuneiform sign ka times she
012182 Cuneiform sign ka times shid
012183 Cuneiform sign ka times shu
012184 Cuneiform sign ka times sig
012185 Cuneiform sign ka times suhur
012186 Cuneiform sign ka times tar
012187 Cuneiform sign ka times u
012188 Cuneiform sign ka times u2
012189 Cuneiform sign ka times ud
01218A Cuneiform sign ka times umum times pa
01218B Cuneiform sign ka times ush
01218C Cuneiform sign ka times zi
01218D Cuneiform sign ka2
01218E Cuneiform sign ka2 crossing ka2
01218F Cuneiform sign kab
012190 Cuneiform sign kad2
012191 Cuneiform sign kad3
012192 Cuneiform sign kad4
012193 Cuneiform sign kad5
012194 Cuneiform sign kad5 over kad5
012195 Cuneiform sign kak
012196 Cuneiform sign kak times igi gunu
012197 Cuneiform sign kal
012198 Cuneiform sign kal times bad
012199 Cuneiform sign kal crossing kal
01219A Cuneiform sign kam2
01219B Cuneiform sign kam4
01219C Cuneiform sign kaskal
01219D Cuneiform sign kaskal lagab times u over lagab times u
01219E Cuneiform sign kaskal over kaskal lagab times u over lagab times u
01219F Cuneiform sign kesh2
";

pub const NAMES_52: &'static str = "0121A0 Cuneiform sign ki
0121A1 Cuneiform sign ki times bad
0121A2 Cuneiform sign ki times u
0121A3 Cuneiform sign ki times ud
0121A4 Cuneiform sign kid
0121A5 Cuneiform sign kin
0121A6 Cuneiform sign kisal
0121A7 Cuneiform sign kish
0121A8 Cuneiform sign kisim5
0121A9 Cuneiform sign kisim5 over kisim5
0121AA Cuneiform sign ku
0121AB Cuneiform sign ku over hi times ash2 ku over hi times ash2
0121AC Cuneiform sign ku3
0121AD Cuneiform sign ku4
0121AE Cuneiform sign ku4 variant form
0121AF Cuneiform sign ku7
0121B0 Cuneiform sign kul
0121B1 Cuneiform sign kul gunu
0121B2 Cuneiform sign kun
0121B3 Cuneiform sign kur
0121B4 Cuneiform sign kur opposing kur
0121B5 Cuneiform sign kushu2
0121B6 Cuneiform sign kwu318
0121B7 Cuneiform sign la
0121B8 Cuneiform sign lagab
0121B9 Cuneiform sign lagab times a
0121BA Cuneiform sign lagab times a plus da plus ha
0121BB Cuneiform sign lagab times a plus gar
0121BC Cuneiform sign lagab times a plus lal
0121BD Cuneiform sign lagab times al
0121BE Cuneiform sign lagab times an
0121BF Cuneiform sign lagab times ash zida tenu
0121C0 Cuneiform sign lagab times bad
0121C1 Cuneiform sign lagab times bi
0121C2 Cuneiform sign lagab times dar
0121C3 Cuneiform sign lagab times en
0121C4 Cuneiform sign lagab times ga
0121C5 Cuneiform sign lagab times gar
0121C6 Cuneiform sign lagab times gud
0121C7 Cuneiform sign lagab times gud plus gud
0121C8 Cuneiform sign lagab times ha
0121C9 Cuneiform sign lagab times hal
0121CA Cuneiform sign lagab times hi times nun
0121CB Cuneiform sign lagab times igi gunu
0121CC Cuneiform sign lagab times im
0121CD Cuneiform sign lagab times im plus ha
0121CE Cuneiform sign lagab times im plus lu
0121CF Cuneiform sign lagab times ki
0121D0 Cuneiform sign lagab times kin
0121D1 Cuneiform sign lagab times ku3
0121D2 Cuneiform sign lagab times kul
0121D3 Cuneiform sign lagab times kul plus hi plus a
0121D4 Cuneiform sign lagab times lagab
0121D5 Cuneiform sign lagab times lish
0121D6 Cuneiform sign lagab times lu
0121D7 Cuneiform sign lagab times lul
0121D8 Cuneiform sign lagab times me
0121D9 Cuneiform sign lagab times me plus en
0121DA Cuneiform sign lagab times mush
0121DB Cuneiform sign lagab times ne
0121DC Cuneiform sign lagab times she plus sum
0121DD Cuneiform sign lagab times shita plus gish plus erin2
0121DE Cuneiform sign lagab times shita plus gish tenu
0121DF Cuneiform sign lagab times shu2
0121E0 Cuneiform sign lagab times shu2 plus shu2
0121E1 Cuneiform sign lagab times sum
0121E2 Cuneiform sign lagab times tag
0121E3 Cuneiform sign lagab times tak4
0121E4 Cuneiform sign lagab times te plus a plus su plus na
0121E5 Cuneiform sign lagab times u
0121E6 Cuneiform sign lagab times u plus a
0121E7 Cuneiform sign lagab times u plus u plus u
0121E8 Cuneiform sign lagab times u2 plus ash
0121E9 Cuneiform sign lagab times ud
0121EA Cuneiform sign lagab times ush
0121EB Cuneiform sign lagab squared
0121EC Cuneiform sign lagar
0121ED Cuneiform sign lagar times she
0121EE Cuneiform sign lagar times she plus sum
0121EF Cuneiform sign lagar gunu
0121F0 Cuneiform sign lagar gunu over lagar gunu she
0121F1 Cuneiform sign lahshu
0121F2 Cuneiform sign lal
0121F3 Cuneiform sign lal times lal
0121F4 Cuneiform sign lam
0121F5 Cuneiform sign lam times kur
0121F6 Cuneiform sign lam times kur plus ru
0121F7 Cuneiform sign li
0121F8 Cuneiform sign lil
0121F9 Cuneiform sign limmu2
0121FA Cuneiform sign lish
0121FB Cuneiform sign lu
0121FC Cuneiform sign lu times bad
0121FD Cuneiform sign lu2
0121FE Cuneiform sign lu2 times al
0121FF Cuneiform sign lu2 times bad
012200 Cuneiform sign lu2 times esh2
012201 Cuneiform sign lu2 times esh2 tenu
012202 Cuneiform sign lu2 times gan2 tenu
012203 Cuneiform sign lu2 times hi times bad
012204 Cuneiform sign lu2 times im
012205 Cuneiform sign lu2 times kad2
012206 Cuneiform sign lu2 times kad3
012207 Cuneiform sign lu2 times kad3 plus ash
012208 Cuneiform sign lu2 times ki
012209 Cuneiform sign lu2 times la plus ash
01220A Cuneiform sign lu2 times lagab
01220B Cuneiform sign lu2 times me plus en
01220C Cuneiform sign lu2 times ne
01220D Cuneiform sign lu2 times nu
01220E Cuneiform sign lu2 times si plus ash
01220F Cuneiform sign lu2 times sik2 plus bu
012210 Cuneiform sign lu2 times tug2
012211 Cuneiform sign lu2 tenu
012212 Cuneiform sign lu2 crossing lu2
012213 Cuneiform sign lu2 opposing lu2
012214 Cuneiform sign lu2 squared
012215 Cuneiform sign lu2 sheshig
012216 Cuneiform sign lu3
012217 Cuneiform sign lugal
012218 Cuneiform sign lugal over lugal
012219 Cuneiform sign lugal opposing lugal
01221A Cuneiform sign lugal sheshig
01221B Cuneiform sign luh
01221C Cuneiform sign lul
01221D Cuneiform sign lum
01221E Cuneiform sign lum over lum
01221F Cuneiform sign lum over lum gar over gar
012220 Cuneiform sign ma
012221 Cuneiform sign ma times tak4
012222 Cuneiform sign ma gunu
012223 Cuneiform sign ma2
012224 Cuneiform sign mah
012225 Cuneiform sign mar
012226 Cuneiform sign mash
012227 Cuneiform sign mash2
012228 Cuneiform sign me
012229 Cuneiform sign mes
01222A Cuneiform sign mi
01222B Cuneiform sign min
01222C Cuneiform sign mu
01222D Cuneiform sign mu over mu
01222E Cuneiform sign mug
01222F Cuneiform sign mug gunu
012230 Cuneiform sign munsub
012231 Cuneiform sign murgu2
012232 Cuneiform sign mush
012233 Cuneiform sign mush times a
012234 Cuneiform sign mush times kur
012235 Cuneiform sign mush times za
012236 Cuneiform sign mush over mush
012237 Cuneiform sign mush over mush times a plus na
012238 Cuneiform sign mush crossing mush
012239 Cuneiform sign mush3
01223A Cuneiform sign mush3 times a
01223B Cuneiform sign mush3 times a plus di
01223C Cuneiform sign mush3 times di
01223D Cuneiform sign mush3 gunu
01223E Cuneiform sign na
01223F Cuneiform sign na2
012240 Cuneiform sign naga
012241 Cuneiform sign naga inverted
012242 Cuneiform sign naga times shu tenu
012243 Cuneiform sign naga opposing naga
012244 Cuneiform sign nagar
012245 Cuneiform sign nam nutillu
012246 Cuneiform sign nam
012247 Cuneiform sign nam2
012248 Cuneiform sign ne
012249 Cuneiform sign ne times a
01224A Cuneiform sign ne times ud
01224B Cuneiform sign ne sheshig
01224C Cuneiform sign ni
01224D Cuneiform sign ni times e
01224E Cuneiform sign ni2
01224F Cuneiform sign nim
012250 Cuneiform sign nim times gan2 tenu
012251 Cuneiform sign nim times gar plus gan2 tenu
012252 Cuneiform sign ninda2
012253 Cuneiform sign ninda2 times an
012254 Cuneiform sign ninda2 times ash
012255 Cuneiform sign ninda2 times ash plus ash
012256 Cuneiform sign ninda2 times gud
012257 Cuneiform sign ninda2 times me plus gan2 tenu
012258 Cuneiform sign ninda2 times ne
012259 Cuneiform sign ninda2 times nun
01225A Cuneiform sign ninda2 times she
01225B Cuneiform sign ninda2 times she plus a an
01225C Cuneiform sign ninda2 times she plus ash
01225D Cuneiform sign ninda2 times she plus ash plus ash
01225E Cuneiform sign ninda2 times u2 plus ash
01225F Cuneiform sign ninda2 times ush
012260 Cuneiform sign nisag
012261 Cuneiform sign nu
012262 Cuneiform sign nu11
012263 Cuneiform sign nun
012264 Cuneiform sign nun lagar times gar
012265 Cuneiform sign nun lagar times mash
012266 Cuneiform sign nun lagar times sal
012267 Cuneiform sign nun lagar times sal over nun lagar times sal
012268 Cuneiform sign nun lagar times ush
012269 Cuneiform sign nun tenu
01226A Cuneiform sign nun over nun
01226B Cuneiform sign nun crossing nun
01226C Cuneiform sign nun crossing nun lagar over lagar
01226D Cuneiform sign nunuz
01226E Cuneiform sign nunuz ab2 times ashgab
01226F Cuneiform sign nunuz ab2 times bi
012270 Cuneiform sign nunuz ab2 times dug
012271 Cuneiform sign nunuz ab2 times gud
012272 Cuneiform sign nunuz ab2 times igi gunu
012273 Cuneiform sign nunuz ab2 times kad3
012274 Cuneiform sign nunuz ab2 times la
012275 Cuneiform sign nunuz ab2 times ne
012276 Cuneiform sign nunuz ab2 times sila3
012277 Cuneiform sign nunuz ab2 times u2
012278 Cuneiform sign nunuz kisim5 times bi
012279 Cuneiform sign nunuz kisim5 times bi u
01227A Cuneiform sign pa
01227B Cuneiform sign pad
01227C Cuneiform sign pan
01227D Cuneiform sign pap
01227E Cuneiform sign pesh2
01227F Cuneiform sign pi
012280 Cuneiform sign pi times a
012281 Cuneiform sign pi times ab
012282 Cuneiform sign pi times bi
012283 Cuneiform sign pi times bu
012284 Cuneiform sign pi times e
012285 Cuneiform sign pi times i
012286 Cuneiform sign pi times ib
012287 Cuneiform sign pi times u
012288 Cuneiform sign pi times u2
012289 Cuneiform sign pi crossing pi
01228A Cuneiform sign pirig
01228B Cuneiform sign pirig times kal
01228C Cuneiform sign pirig times ud
01228D Cuneiform sign pirig times za
01228E Cuneiform sign pirig opposing pirig
01228F Cuneiform sign ra
012290 Cuneiform sign rab
012291 Cuneiform sign ri
012292 Cuneiform sign ru
012293 Cuneiform sign sa
012294 Cuneiform sign sag nutillu
012295 Cuneiform sign sag
012296 Cuneiform sign sag times a
012297 Cuneiform sign sag times du
012298 Cuneiform sign sag times dub
012299 Cuneiform sign sag times ha
01229A Cuneiform sign sag times kak
01229B Cuneiform sign sag times kur
01229C Cuneiform sign sag times lum
01229D Cuneiform sign sag times mi
01229E Cuneiform sign sag times nun
01229F Cuneiform sign sag times sal
0122A0 Cuneiform sign sag times shid
0122A1 Cuneiform sign sag times tab
0122A2 Cuneiform sign sag times u2
0122A3 Cuneiform sign sag times ub
0122A4 Cuneiform sign sag times um
0122A5 Cuneiform sign sag times ur
0122A6 Cuneiform sign sag times ush
0122A7 Cuneiform sign sag over sag
0122A8 Cuneiform sign sag gunu
0122A9 Cuneiform sign sal
0122AA Cuneiform sign sal lagab times ash2
0122AB Cuneiform sign sanga2
0122AC Cuneiform sign sar
0122AD Cuneiform sign sha
0122AE Cuneiform sign sha3
0122AF Cuneiform sign sha3 times a
0122B0 Cuneiform sign sha3 times bad
0122B1 Cuneiform sign sha3 times gish
0122B2 Cuneiform sign sha3 times ne
0122B3 Cuneiform sign sha3 times shu2
0122B4 Cuneiform sign sha3 times tur
0122B5 Cuneiform sign sha3 times u
0122B6 Cuneiform sign sha3 times u plus a
0122B7 Cuneiform sign sha6
0122B8 Cuneiform sign shab6
0122B9 Cuneiform sign shar2
0122BA Cuneiform sign she
0122BB Cuneiform sign she hu
0122BC Cuneiform sign she over she gad over gad gar over gar
0122BD Cuneiform sign she over she tab over tab gar over gar
0122BE Cuneiform sign sheg9
0122BF Cuneiform sign shen
0122C0 Cuneiform sign shesh
0122C1 Cuneiform sign shesh2
0122C2 Cuneiform sign sheshlam
0122C3 Cuneiform sign shid
0122C4 Cuneiform sign shid times a
0122C5 Cuneiform sign shid times im
0122C6 Cuneiform sign shim
0122C7 Cuneiform sign shim times a
0122C8 Cuneiform sign shim times bal
0122C9 Cuneiform sign shim times bulug
0122CA Cuneiform sign shim times din
0122CB Cuneiform sign shim times gar
0122CC Cuneiform sign shim times igi
0122CD Cuneiform sign shim times igi gunu
0122CE Cuneiform sign shim times kushu2
0122CF Cuneiform sign shim times lul
0122D0 Cuneiform sign shim times mug
0122D1 Cuneiform sign shim times sal
0122D2 Cuneiform sign shinig
0122D3 Cuneiform sign shir
0122D4 Cuneiform sign shir tenu
0122D5 Cuneiform sign shir over shir bur over bur
0122D6 Cuneiform sign shita
0122D7 Cuneiform sign shu
0122D8 Cuneiform sign shu over inverted shu
0122D9 Cuneiform sign shu2
0122DA Cuneiform sign shubur
0122DB Cuneiform sign si
0122DC Cuneiform sign si gunu
0122DD Cuneiform sign sig
0122DE Cuneiform sign sig4
0122DF Cuneiform sign sig4 over sig4 shu2
0122E0 Cuneiform sign sik2
0122E1 Cuneiform sign sila3
0122E2 Cuneiform sign su
0122E3 Cuneiform sign su over su
0122E4 Cuneiform sign sud
0122E5 Cuneiform sign sud2
0122E6 Cuneiform sign suhur
0122E7 Cuneiform sign sum
0122E8 Cuneiform sign sumash
0122E9 Cuneiform sign sur
0122EA Cuneiform sign sur9
0122EB Cuneiform sign ta
0122EC Cuneiform sign ta asterisk
0122ED Cuneiform sign ta times hi
0122EE Cuneiform sign ta times mi
0122EF Cuneiform sign ta gunu
0122F0 Cuneiform sign tab
0122F1 Cuneiform sign tab over tab ni over ni dish over dish
0122F2 Cuneiform sign tab squared
0122F3 Cuneiform sign tag
0122F4 Cuneiform sign tag times bi
0122F5 Cuneiform sign tag times gud
0122F6 Cuneiform sign tag times she
0122F7 Cuneiform sign tag times shu
0122F8 Cuneiform sign tag times tug2
0122F9 Cuneiform sign tag times ud
0122FA Cuneiform sign tak4
0122FB Cuneiform sign tar
0122FC Cuneiform sign te
0122FD Cuneiform sign te gunu
0122FE Cuneiform sign ti
0122FF Cuneiform sign ti tenu
012300 Cuneiform sign til
012301 Cuneiform sign tir
012302 Cuneiform sign tir times tak4
012303 Cuneiform sign tir over tir
012304 Cuneiform sign tir over tir gad over gad gar over gar
012305 Cuneiform sign tu
012306 Cuneiform sign tug2
012307 Cuneiform sign tuk
012308 Cuneiform sign tum
012309 Cuneiform sign tur
01230A Cuneiform sign tur over tur za over za
01230B Cuneiform sign u
01230C Cuneiform sign u gud
01230D Cuneiform sign u u u
01230E Cuneiform sign u over u pa over pa gar over gar
01230F Cuneiform sign u over u sur over sur
012310 Cuneiform sign u over u u reversed over u reversed
012311 Cuneiform sign u2
012312 Cuneiform sign ub
012313 Cuneiform sign ud
012314 Cuneiform sign ud kushu2
012315 Cuneiform sign ud times bad
012316 Cuneiform sign ud times mi
012317 Cuneiform sign ud times u plus u plus u
012318 Cuneiform sign ud times u plus u plus u gunu
012319 Cuneiform sign ud gunu
01231A Cuneiform sign ud sheshig
01231B Cuneiform sign ud sheshig times bad
01231C Cuneiform sign udug
01231D Cuneiform sign um
01231E Cuneiform sign um times lagab
01231F Cuneiform sign um times me plus da
012320 Cuneiform sign um times sha3
012321 Cuneiform sign um times u
012322 Cuneiform sign umbin
012323 Cuneiform sign umum
012324 Cuneiform sign umum times kaskal
012325 Cuneiform sign umum times pa
012326 Cuneiform sign un
012327 Cuneiform sign un gunu
012328 Cuneiform sign ur
012329 Cuneiform sign ur crossing ur
01232A Cuneiform sign ur sheshig
01232B Cuneiform sign ur2
01232C Cuneiform sign ur2 times a plus ha
01232D Cuneiform sign ur2 times a plus na
01232E Cuneiform sign ur2 times al
01232F Cuneiform sign ur2 times ha
";

pub const NAMES_53: &'static str = "012330 Cuneiform sign ur2 times nun
012331 Cuneiform sign ur2 times u2
012332 Cuneiform sign ur2 times u2 plus ash
012333 Cuneiform sign ur2 times u2 plus bi
012334 Cuneiform sign ur4
012335 Cuneiform sign uri
012336 Cuneiform sign uri3
012337 Cuneiform sign uru
012338 Cuneiform sign uru times a
012339 Cuneiform sign uru times ashgab
01233A Cuneiform sign uru times bar
01233B Cuneiform sign uru times dun
01233C Cuneiform sign uru times ga
01233D Cuneiform sign uru times gal
01233E Cuneiform sign uru times gan2 tenu
01233F Cuneiform sign uru times gar
012340 Cuneiform sign uru times gu
012341 Cuneiform sign uru times ha
012342 Cuneiform sign uru times igi
012343 Cuneiform sign uru times im
012344 Cuneiform sign uru times ish
012345 Cuneiform sign uru times ki
012346 Cuneiform sign uru times lum
012347 Cuneiform sign uru times min
012348 Cuneiform sign uru times pa
012349 Cuneiform sign uru times she
01234A Cuneiform sign uru times sig4
01234B Cuneiform sign uru times tu
01234C Cuneiform sign uru times u plus gud
01234D Cuneiform sign uru times ud
01234E Cuneiform sign uru times uruda
01234F Cuneiform sign uruda
012350 Cuneiform sign uruda times u
012351 Cuneiform sign ush
012352 Cuneiform sign ush times a
012353 Cuneiform sign ush times ku
012354 Cuneiform sign ush times kur
012355 Cuneiform sign ush times tak4
012356 Cuneiform sign ushx
012357 Cuneiform sign ush2
012358 Cuneiform sign ushumx
012359 Cuneiform sign utuki
01235A Cuneiform sign uz3
01235B Cuneiform sign uz3 times kaskal
01235C Cuneiform sign uzu
01235D Cuneiform sign za
01235E Cuneiform sign za tenu
01235F Cuneiform sign za squared times kur
012360 Cuneiform sign zag
012361 Cuneiform sign zamx
012362 Cuneiform sign ze2
012363 Cuneiform sign zi
012364 Cuneiform sign zi over zi
012365 Cuneiform sign zi3
012366 Cuneiform sign zib
012367 Cuneiform sign zib kaba tenu
012368 Cuneiform sign zig
012369 Cuneiform sign ziz2
01236A Cuneiform sign zu
01236B Cuneiform sign zu5
01236C Cuneiform sign zu5 times a
01236D Cuneiform sign zubur
01236E Cuneiform sign zum
01236F Cuneiform sign kap elamite
012370 Cuneiform sign ab times nun
012371 Cuneiform sign ab2 times a
012372 Cuneiform sign amar times kug
012373 Cuneiform sign dag kisim5 times u2 plus mash
012374 Cuneiform sign dag3
012375 Cuneiform sign dish plus shu
012376 Cuneiform sign dub times she
012377 Cuneiform sign ezen times gud
012378 Cuneiform sign ezen times she
012379 Cuneiform sign ga2 times an plus kak plus a
01237A Cuneiform sign ga2 times ash2
01237B Cuneiform sign ge22
01237C Cuneiform sign gig
01237D Cuneiform sign hush
01237E Cuneiform sign ka times anshe
01237F Cuneiform sign ka times ash3
012380 Cuneiform sign ka times gish
012381 Cuneiform sign ka times gud
012382 Cuneiform sign ka times hi times ash2
012383 Cuneiform sign ka times lum
012384 Cuneiform sign ka times pa
012385 Cuneiform sign ka times shul
012386 Cuneiform sign ka times tu
012387 Cuneiform sign ka times ur2
012388 Cuneiform sign lagab times gi
012389 Cuneiform sign lu2 sheshig times bad
01238A Cuneiform sign lu2 times esh2 plus lal
01238B Cuneiform sign lu2 times shu
01238C Cuneiform sign mesh
01238D Cuneiform sign mush3 times za
01238E Cuneiform sign na4
01238F Cuneiform sign nin
012390 Cuneiform sign nin9
012391 Cuneiform sign ninda2 times bal
012392 Cuneiform sign ninda2 times gi
012393 Cuneiform sign nu11 rotated ninety degrees
012394 Cuneiform sign pesh2 asterisk
012395 Cuneiform sign pir2
012396 Cuneiform sign sag times igi gunu
012397 Cuneiform sign ti2
012398 Cuneiform sign um times me
012399 Cuneiform sign u u
012400 Cuneiform numeric sign two ash
012401 Cuneiform numeric sign three ash
012402 Cuneiform numeric sign four ash
012403 Cuneiform numeric sign five ash
012404 Cuneiform numeric sign six ash
012405 Cuneiform numeric sign seven ash
012406 Cuneiform numeric sign eight ash
012407 Cuneiform numeric sign nine ash
012408 Cuneiform numeric sign three dish
012409 Cuneiform numeric sign four dish
01240A Cuneiform numeric sign five dish
01240B Cuneiform numeric sign six dish
01240C Cuneiform numeric sign seven dish
01240D Cuneiform numeric sign eight dish
01240E Cuneiform numeric sign nine dish
01240F Cuneiform numeric sign four u
012410 Cuneiform numeric sign five u
012411 Cuneiform numeric sign six u
012412 Cuneiform numeric sign seven u
012413 Cuneiform numeric sign eight u
012414 Cuneiform numeric sign nine u
012415 Cuneiform numeric sign one gesh2
012416 Cuneiform numeric sign two gesh2
012417 Cuneiform numeric sign three gesh2
012418 Cuneiform numeric sign four gesh2
012419 Cuneiform numeric sign five gesh2
01241A Cuneiform numeric sign six gesh2
01241B Cuneiform numeric sign seven gesh2
01241C Cuneiform numeric sign eight gesh2
01241D Cuneiform numeric sign nine gesh2
01241E Cuneiform numeric sign one geshu
01241F Cuneiform numeric sign two geshu
012420 Cuneiform numeric sign three geshu
012421 Cuneiform numeric sign four geshu
012422 Cuneiform numeric sign five geshu
012423 Cuneiform numeric sign two shar2
012424 Cuneiform numeric sign three shar2
012425 Cuneiform numeric sign three shar2 variant form
012426 Cuneiform numeric sign four shar2
012427 Cuneiform numeric sign five shar2
012428 Cuneiform numeric sign six shar2
012429 Cuneiform numeric sign seven shar2
01242A Cuneiform numeric sign eight shar2
01242B Cuneiform numeric sign nine shar2
01242C Cuneiform numeric sign one sharu
01242D Cuneiform numeric sign two sharu
01242E Cuneiform numeric sign three sharu
01242F Cuneiform numeric sign three sharu variant form
012430 Cuneiform numeric sign four sharu
012431 Cuneiform numeric sign five sharu
012432 Cuneiform numeric sign shar2 times gal plus dish
012433 Cuneiform numeric sign shar2 times gal plus min
012434 Cuneiform numeric sign one buru
012435 Cuneiform numeric sign two buru
012436 Cuneiform numeric sign three buru
012437 Cuneiform numeric sign three buru variant form
012438 Cuneiform numeric sign four buru
012439 Cuneiform numeric sign five buru
01243A Cuneiform numeric sign three variant form esh16
01243B Cuneiform numeric sign three variant form esh21
01243C Cuneiform numeric sign four variant form limmu
01243D Cuneiform numeric sign four variant form limmu4
01243E Cuneiform numeric sign four variant form limmu a
01243F Cuneiform numeric sign four variant form limmu b
012440 Cuneiform numeric sign six variant form ash9
012441 Cuneiform numeric sign seven variant form imin3
012442 Cuneiform numeric sign seven variant form imin a
012443 Cuneiform numeric sign seven variant form imin b
012444 Cuneiform numeric sign eight variant form ussu
012445 Cuneiform numeric sign eight variant form ussu3
012446 Cuneiform numeric sign nine variant form ilimmu
012447 Cuneiform numeric sign nine variant form ilimmu3
012448 Cuneiform numeric sign nine variant form ilimmu4
012449 Cuneiform numeric sign nine variant form ilimmu a
01244A Cuneiform numeric sign two ash tenu
01244B Cuneiform numeric sign three ash tenu
01244C Cuneiform numeric sign four ash tenu
01244D Cuneiform numeric sign five ash tenu
01244E Cuneiform numeric sign six ash tenu
01244F Cuneiform numeric sign one ban2
012450 Cuneiform numeric sign two ban2
012451 Cuneiform numeric sign three ban2
012452 Cuneiform numeric sign four ban2
012453 Cuneiform numeric sign four ban2 variant form
012454 Cuneiform numeric sign five ban2
012455 Cuneiform numeric sign five ban2 variant form
012456 Cuneiform numeric sign nigidamin
012457 Cuneiform numeric sign nigidaesh
012458 Cuneiform numeric sign one eshe3
012459 Cuneiform numeric sign two eshe3
01245A Cuneiform numeric sign one third dish
01245B Cuneiform numeric sign two thirds dish
01245C Cuneiform numeric sign five sixths dish
01245D Cuneiform numeric sign one third variant form a
01245E Cuneiform numeric sign two thirds variant form a
01245F Cuneiform numeric sign one eighth ash
012460 Cuneiform numeric sign one quarter ash
012461 Cuneiform numeric sign old assyrian one sixth
012462 Cuneiform numeric sign old assyrian one quarter
012463 Cuneiform numeric sign one quarter gur
012464 Cuneiform numeric sign one half gur
012465 Cuneiform numeric sign elamite one third
012466 Cuneiform numeric sign elamite two thirds
012467 Cuneiform numeric sign elamite forty
012468 Cuneiform numeric sign elamite fifty
012469 Cuneiform numeric sign four u variant form
01246A Cuneiform numeric sign five u variant form
01246B Cuneiform numeric sign six u variant form
01246C Cuneiform numeric sign seven u variant form
01246D Cuneiform numeric sign eight u variant form
01246E Cuneiform numeric sign nine u variant form
012470 Cuneiform punctuation sign old assyrian word divider
012471 Cuneiform punctuation sign vertical colon
012472 Cuneiform punctuation sign diagonal colon
012473 Cuneiform punctuation sign diagonal tricolon
012474 Cuneiform punctuation sign diagonal quadcolon
012480 Cuneiform sign ab times nun tenu
012481 Cuneiform sign ab times shu2
012482 Cuneiform sign ad times esh2
012483 Cuneiform sign bad times dish tenu
012484 Cuneiform sign bahar2 times ab2
012485 Cuneiform sign bahar2 times ni
012486 Cuneiform sign bahar2 times za
012487 Cuneiform sign bu over bu times na2
012488 Cuneiform sign da times tak4
012489 Cuneiform sign dag times kur
01248A Cuneiform sign dim times igi
01248B Cuneiform sign dim times u u u
01248C Cuneiform sign dim2 times ud
01248D Cuneiform sign dug times anshe
01248E Cuneiform sign dug times ash
01248F Cuneiform sign dug times ash at left
012490 Cuneiform sign dug times din
012491 Cuneiform sign dug times dun
012492 Cuneiform sign dug times erin2
012493 Cuneiform sign dug times ga
012494 Cuneiform sign dug times gi
012495 Cuneiform sign dug times gir2 gunu
012496 Cuneiform sign dug times gish
012497 Cuneiform sign dug times ha
012498 Cuneiform sign dug times hi
012499 Cuneiform sign dug times igi gunu
01249A Cuneiform sign dug times kaskal
01249B Cuneiform sign dug times kur
01249C Cuneiform sign dug times kushu2
01249D Cuneiform sign dug times kushu2 plus kaskal
01249E Cuneiform sign dug times lak-020
01249F Cuneiform sign dug times lam
0124A0 Cuneiform sign dug times lam times kur
0124A1 Cuneiform sign dug times luh plus gish
0124A2 Cuneiform sign dug times mash
0124A3 Cuneiform sign dug times mes
0124A4 Cuneiform sign dug times mi
0124A5 Cuneiform sign dug times ni
0124A6 Cuneiform sign dug times pi
0124A7 Cuneiform sign dug times she
0124A8 Cuneiform sign dug times si gunu
0124A9 Cuneiform sign e2 times kur
0124AA Cuneiform sign e2 times pap
0124AB Cuneiform sign erin2 x
0124AC Cuneiform sign esh2 crossing esh2
0124AD Cuneiform sign ezen sheshig times ash
0124AE Cuneiform sign ezen sheshig times hi
0124AF Cuneiform sign ezen sheshig times igi gunu
0124B0 Cuneiform sign ezen sheshig times la
0124B1 Cuneiform sign ezen sheshig times lal
0124B2 Cuneiform sign ezen sheshig times me
0124B3 Cuneiform sign ezen sheshig times mes
0124B4 Cuneiform sign ezen sheshig times su
0124B5 Cuneiform sign ezen times su
0124B6 Cuneiform sign ga2 times bahar2
0124B7 Cuneiform sign ga2 times dim gunu
0124B8 Cuneiform sign ga2 times dug times igi gunu
0124B9 Cuneiform sign ga2 times dug times kaskal
0124BA Cuneiform sign ga2 times eren
0124BB Cuneiform sign ga2 times ga
0124BC Cuneiform sign ga2 times gar plus di
0124BD Cuneiform sign ga2 times gar plus ne
0124BE Cuneiform sign ga2 times ha plus a
0124BF Cuneiform sign ga2 times kushu2 plus kaskal
0124C0 Cuneiform sign ga2 times lam
0124C1 Cuneiform sign ga2 times lam times kur
0124C2 Cuneiform sign ga2 times luh
0124C3 Cuneiform sign ga2 times mush
0124C4 Cuneiform sign ga2 times ne
0124C5 Cuneiform sign ga2 times ne plus e2
0124C6 Cuneiform sign ga2 times ne plus gi
0124C7 Cuneiform sign ga2 times shim
0124C8 Cuneiform sign ga2 times ziz2
0124C9 Cuneiform sign gaba rotated ninety degrees
0124CA Cuneiform sign geshtin times u
0124CB Cuneiform sign gish times gish crossing gish
0124CC Cuneiform sign gu2 times igi gunu
0124CD Cuneiform sign gud plus gish times tak4
0124CE Cuneiform sign ha tenu gunu
0124CF Cuneiform sign hi times ash over hi times ash
0124D0 Cuneiform sign ka times bu
0124D1 Cuneiform sign ka times ka
0124D2 Cuneiform sign ka times u u u
0124D3 Cuneiform sign ka times ur
0124D4 Cuneiform sign lagab times zu over zu
0124D5 Cuneiform sign lak-003
0124D6 Cuneiform sign lak-021
0124D7 Cuneiform sign lak-025
0124D8 Cuneiform sign lak-030
0124D9 Cuneiform sign lak-050
0124DA Cuneiform sign lak-051
0124DB Cuneiform sign lak-062
0124DC Cuneiform sign lak-079 over lak-079 gunu
0124DD Cuneiform sign lak-080
0124DE Cuneiform sign lak-081 over lak-081
0124DF Cuneiform sign lak-092
0124E0 Cuneiform sign lak-130
0124E1 Cuneiform sign lak-142
0124E2 Cuneiform sign lak-210
0124E3 Cuneiform sign lak-219
0124E4 Cuneiform sign lak-220
0124E5 Cuneiform sign lak-225
0124E6 Cuneiform sign lak-228
0124E7 Cuneiform sign lak-238
0124E8 Cuneiform sign lak-265
0124E9 Cuneiform sign lak-266
0124EA Cuneiform sign lak-343
0124EB Cuneiform sign lak-347
0124EC Cuneiform sign lak-348
0124ED Cuneiform sign lak-383
0124EE Cuneiform sign lak-384
0124EF Cuneiform sign lak-390
0124F0 Cuneiform sign lak-441
0124F1 Cuneiform sign lak-449
0124F2 Cuneiform sign lak-449 times gu
0124F3 Cuneiform sign lak-449 times igi
0124F4 Cuneiform sign lak-449 times pap plus lu3
0124F5 Cuneiform sign lak-449 times pap plus pap plus lu3
0124F6 Cuneiform sign lak-449 times u2 plus ba
0124F7 Cuneiform sign lak-450
0124F8 Cuneiform sign lak-457
0124F9 Cuneiform sign lak-470
0124FA Cuneiform sign lak-483
0124FB Cuneiform sign lak-490
0124FC Cuneiform sign lak-492
0124FD Cuneiform sign lak-493
0124FE Cuneiform sign lak-495
0124FF Cuneiform sign lak-550
012500 Cuneiform sign lak-608
012501 Cuneiform sign lak-617
012502 Cuneiform sign lak-617 times ash
012503 Cuneiform sign lak-617 times bad
012504 Cuneiform sign lak-617 times dun3 gunu gunu
012505 Cuneiform sign lak-617 times ku3
012506 Cuneiform sign lak-617 times la
012507 Cuneiform sign lak-617 times tar
012508 Cuneiform sign lak-617 times te
";

pub const NAMES_54: &'static str = "012509 Cuneiform sign lak-617 times u2
01250A Cuneiform sign lak-617 times ud
01250B Cuneiform sign lak-617 times uruda
01250C Cuneiform sign lak-636
01250D Cuneiform sign lak-648
01250E Cuneiform sign lak-648 times dub
01250F Cuneiform sign lak-648 times ga
012510 Cuneiform sign lak-648 times igi
012511 Cuneiform sign lak-648 times igi gunu
012512 Cuneiform sign lak-648 times ni
012513 Cuneiform sign lak-648 times pap plus pap plus lu3
012514 Cuneiform sign lak-648 times shesh plus ki
012515 Cuneiform sign lak-648 times ud
012516 Cuneiform sign lak-648 times uruda
012517 Cuneiform sign lak-724
012518 Cuneiform sign lak-749
012519 Cuneiform sign lu2 gunu times ash
01251A Cuneiform sign lu2 times dish
01251B Cuneiform sign lu2 times hal
01251C Cuneiform sign lu2 times pap
01251D Cuneiform sign lu2 times pap plus pap plus lu3
01251E Cuneiform sign lu2 times tak4
01251F Cuneiform sign mi plus za7
012520 Cuneiform sign mush over mush times ga
012521 Cuneiform sign mush over mush times kak
012522 Cuneiform sign ninda2 times dim gunu
012523 Cuneiform sign ninda2 times gish
012524 Cuneiform sign ninda2 times gul
012525 Cuneiform sign ninda2 times hi
012526 Cuneiform sign ninda2 times kesh2
012527 Cuneiform sign ninda2 times lak-050
012528 Cuneiform sign ninda2 times mash
012529 Cuneiform sign ninda2 times pap plus pap
01252A Cuneiform sign ninda2 times u
01252B Cuneiform sign ninda2 times u plus u
01252C Cuneiform sign ninda2 times uruda
01252D Cuneiform sign sag gunu times ha
01252E Cuneiform sign sag times en
01252F Cuneiform sign sag times she at left
012530 Cuneiform sign sag times tak4
012531 Cuneiform sign sha6 tenu
012532 Cuneiform sign she over she
012533 Cuneiform sign she plus hub2
012534 Cuneiform sign she plus nam2
012535 Cuneiform sign she plus sar
012536 Cuneiform sign shu2 plus dug times ni
012537 Cuneiform sign shu2 plus e2 times an
012538 Cuneiform sign si times tak4
012539 Cuneiform sign tak4 plus sag
01253A Cuneiform sign tum times gan2 tenu
01253B Cuneiform sign tum times three dish
01253C Cuneiform sign ur2 inverted
01253D Cuneiform sign ur2 times ud
01253E Cuneiform sign uru times dara3
01253F Cuneiform sign uru times lak-668
012540 Cuneiform sign uru times lu3
012541 Cuneiform sign za7
012542 Cuneiform sign zu over zu plus sar
012543 Cuneiform sign zu5 times three dish tenu
012F90 Cypro-minoan sign cm001
012F91 Cypro-minoan sign cm002
012F92 Cypro-minoan sign cm004
012F93 Cypro-minoan sign cm005
012F94 Cypro-minoan sign cm006
012F95 Cypro-minoan sign cm007
012F96 Cypro-minoan sign cm008
012F97 Cypro-minoan sign cm009
012F98 Cypro-minoan sign cm010
012F99 Cypro-minoan sign cm011
012F9A Cypro-minoan sign cm012
012F9B Cypro-minoan sign cm012b
012F9C Cypro-minoan sign cm013
012F9D Cypro-minoan sign cm015
012F9E Cypro-minoan sign cm017
012F9F Cypro-minoan sign cm019
012FA0 Cypro-minoan sign cm021
012FA1 Cypro-minoan sign cm023
012FA2 Cypro-minoan sign cm024
012FA3 Cypro-minoan sign cm025
012FA4 Cypro-minoan sign cm026
012FA5 Cypro-minoan sign cm027
012FA6 Cypro-minoan sign cm028
012FA7 Cypro-minoan sign cm029
012FA8 Cypro-minoan sign cm030
012FA9 Cypro-minoan sign cm033
012FAA Cypro-minoan sign cm034
012FAB Cypro-minoan sign cm035
012FAC Cypro-minoan sign cm036
012FAD Cypro-minoan sign cm037
012FAE Cypro-minoan sign cm038
012FAF Cypro-minoan sign cm039
012FB0 Cypro-minoan sign cm040
012FB1 Cypro-minoan sign cm041
012FB2 Cypro-minoan sign cm044
012FB3 Cypro-minoan sign cm046
012FB4 Cypro-minoan sign cm047
012FB5 Cypro-minoan sign cm049
012FB6 Cypro-minoan sign cm050
012FB7 Cypro-minoan sign cm051
012FB8 Cypro-minoan sign cm052
012FB9 Cypro-minoan sign cm053
012FBA Cypro-minoan sign cm054
012FBB Cypro-minoan sign cm055
012FBC Cypro-minoan sign cm056
012FBD Cypro-minoan sign cm058
012FBE Cypro-minoan sign cm059
012FBF Cypro-minoan sign cm060
012FC0 Cypro-minoan sign cm061
012FC1 Cypro-minoan sign cm062
012FC2 Cypro-minoan sign cm063
012FC3 Cypro-minoan sign cm064
012FC4 Cypro-minoan sign cm066
012FC5 Cypro-minoan sign cm067
012FC6 Cypro-minoan sign cm068
012FC7 Cypro-minoan sign cm069
012FC8 Cypro-minoan sign cm070
012FC9 Cypro-minoan sign cm071
012FCA Cypro-minoan sign cm072
012FCB Cypro-minoan sign cm073
012FCC Cypro-minoan sign cm074
012FCD Cypro-minoan sign cm075
012FCE Cypro-minoan sign cm075b
012FCF Cypro-minoan sign cm076
012FD0 Cypro-minoan sign cm078
012FD1 Cypro-minoan sign cm079
012FD2 Cypro-minoan sign cm080
012FD3 Cypro-minoan sign cm081
012FD4 Cypro-minoan sign cm082
012FD5 Cypro-minoan sign cm083
012FD6 Cypro-minoan sign cm084
012FD7 Cypro-minoan sign cm085
012FD8 Cypro-minoan sign cm086
012FD9 Cypro-minoan sign cm087
012FDA Cypro-minoan sign cm088
012FDB Cypro-minoan sign cm089
012FDC Cypro-minoan sign cm090
012FDD Cypro-minoan sign cm091
012FDE Cypro-minoan sign cm092
012FDF Cypro-minoan sign cm094
012FE0 Cypro-minoan sign cm095
012FE1 Cypro-minoan sign cm096
012FE2 Cypro-minoan sign cm097
012FE3 Cypro-minoan sign cm098
012FE4 Cypro-minoan sign cm099
012FE5 Cypro-minoan sign cm100
012FE6 Cypro-minoan sign cm101
012FE7 Cypro-minoan sign cm102
012FE8 Cypro-minoan sign cm103
012FE9 Cypro-minoan sign cm104
012FEA Cypro-minoan sign cm105
012FEB Cypro-minoan sign cm107
012FEC Cypro-minoan sign cm108
012FED Cypro-minoan sign cm109
012FEE Cypro-minoan sign cm110
012FEF Cypro-minoan sign cm112
012FF0 Cypro-minoan sign cm114
012FF1 Cypro-minoan sign cm301
012FF2 Cypro-minoan sign cm302
013000 Egyptian hieroglyph a001
013001 Egyptian hieroglyph a002
013002 Egyptian hieroglyph a003
013003 Egyptian hieroglyph a004
013004 Egyptian hieroglyph a005
013005 Egyptian hieroglyph a005a
013006 Egyptian hieroglyph a006
013007 Egyptian hieroglyph a006a
013008 Egyptian hieroglyph a006b
013009 Egyptian hieroglyph a007
01300A Egyptian hieroglyph a008
01300B Egyptian hieroglyph a009
01300C Egyptian hieroglyph a010
01300D Egyptian hieroglyph a011
01300E Egyptian hieroglyph a012
01300F Egyptian hieroglyph a013
013010 Egyptian hieroglyph a014
013011 Egyptian hieroglyph a014a
013012 Egyptian hieroglyph a015
013013 Egyptian hieroglyph a016
013014 Egyptian hieroglyph a017
013015 Egyptian hieroglyph a017a
013016 Egyptian hieroglyph a018
013017 Egyptian hieroglyph a019
013018 Egyptian hieroglyph a020
013019 Egyptian hieroglyph a021
01301A Egyptian hieroglyph a022
01301B Egyptian hieroglyph a023
01301C Egyptian hieroglyph a024
01301D Egyptian hieroglyph a025
01301E Egyptian hieroglyph a026
01301F Egyptian hieroglyph a027
013020 Egyptian hieroglyph a028
013021 Egyptian hieroglyph a029
013022 Egyptian hieroglyph a030
013023 Egyptian hieroglyph a031
013024 Egyptian hieroglyph a032
013025 Egyptian hieroglyph a032a
013026 Egyptian hieroglyph a033
013027 Egyptian hieroglyph a034
013028 Egyptian hieroglyph a035
013029 Egyptian hieroglyph a036
01302A Egyptian hieroglyph a037
01302B Egyptian hieroglyph a038
01302C Egyptian hieroglyph a039
01302D Egyptian hieroglyph a040
01302E Egyptian hieroglyph a040a
01302F Egyptian hieroglyph a041
013030 Egyptian hieroglyph a042
013031 Egyptian hieroglyph a042a
013032 Egyptian hieroglyph a043
013033 Egyptian hieroglyph a043a
013034 Egyptian hieroglyph a044
013035 Egyptian hieroglyph a045
013036 Egyptian hieroglyph a045a
013037 Egyptian hieroglyph a046
013038 Egyptian hieroglyph a047
013039 Egyptian hieroglyph a048
01303A Egyptian hieroglyph a049
01303B Egyptian hieroglyph a050
01303C Egyptian hieroglyph a051
01303D Egyptian hieroglyph a052
01303E Egyptian hieroglyph a053
01303F Egyptian hieroglyph a054
013040 Egyptian hieroglyph a055
013041 Egyptian hieroglyph a056
013042 Egyptian hieroglyph a057
013043 Egyptian hieroglyph a058
013044 Egyptian hieroglyph a059
013045 Egyptian hieroglyph a060
013046 Egyptian hieroglyph a061
013047 Egyptian hieroglyph a062
013048 Egyptian hieroglyph a063
013049 Egyptian hieroglyph a064
01304A Egyptian hieroglyph a065
01304B Egyptian hieroglyph a066
01304C Egyptian hieroglyph a067
01304D Egyptian hieroglyph a068
01304E Egyptian hieroglyph a069
01304F Egyptian hieroglyph a070
013050 Egyptian hieroglyph b001
013051 Egyptian hieroglyph b002
013052 Egyptian hieroglyph b003
013053 Egyptian hieroglyph b004
013054 Egyptian hieroglyph b005
013055 Egyptian hieroglyph b005a
013056 Egyptian hieroglyph b006
013057 Egyptian hieroglyph b007
013058 Egyptian hieroglyph b008
013059 Egyptian hieroglyph b009
01305A Egyptian hieroglyph c001
01305B Egyptian hieroglyph c002
01305C Egyptian hieroglyph c002a
01305D Egyptian hieroglyph c002b
01305E Egyptian hieroglyph c002c
01305F Egyptian hieroglyph c003
013060 Egyptian hieroglyph c004
013061 Egyptian hieroglyph c005
013062 Egyptian hieroglyph c006
013063 Egyptian hieroglyph c007
013064 Egyptian hieroglyph c008
013065 Egyptian hieroglyph c009
013066 Egyptian hieroglyph c010
013067 Egyptian hieroglyph c010a
013068 Egyptian hieroglyph c011
013069 Egyptian hieroglyph c012
01306A Egyptian hieroglyph c013
01306B Egyptian hieroglyph c014
01306C Egyptian hieroglyph c015
01306D Egyptian hieroglyph c016
01306E Egyptian hieroglyph c017
01306F Egyptian hieroglyph c018
013070 Egyptian hieroglyph c019
013071 Egyptian hieroglyph c020
013072 Egyptian hieroglyph c021
013073 Egyptian hieroglyph c022
013074 Egyptian hieroglyph c023
013075 Egyptian hieroglyph c024
013076 Egyptian hieroglyph d001
013077 Egyptian hieroglyph d002
013078 Egyptian hieroglyph d003
013079 Egyptian hieroglyph d004
01307A Egyptian hieroglyph d005
01307B Egyptian hieroglyph d006
01307C Egyptian hieroglyph d007
01307D Egyptian hieroglyph d008
01307E Egyptian hieroglyph d008a
01307F Egyptian hieroglyph d009
013080 Egyptian hieroglyph d010
013081 Egyptian hieroglyph d011
013082 Egyptian hieroglyph d012
013083 Egyptian hieroglyph d013
013084 Egyptian hieroglyph d014
013085 Egyptian hieroglyph d015
013086 Egyptian hieroglyph d016
013087 Egyptian hieroglyph d017
013088 Egyptian hieroglyph d018
013089 Egyptian hieroglyph d019
01308A Egyptian hieroglyph d020
01308B Egyptian hieroglyph d021
01308C Egyptian hieroglyph d022
01308D Egyptian hieroglyph d023
01308E Egyptian hieroglyph d024
01308F Egyptian hieroglyph d025
013090 Egyptian hieroglyph d026
013091 Egyptian hieroglyph d027
013092 Egyptian hieroglyph d027a
013093 Egyptian hieroglyph d028
013094 Egyptian hieroglyph d029
013095 Egyptian hieroglyph d030
013096 Egyptian hieroglyph d031
013097 Egyptian hieroglyph d031a
013098 Egyptian hieroglyph d032
013099 Egyptian hieroglyph d033
01309A Egyptian hieroglyph d034
01309B Egyptian hieroglyph d034a
01309C Egyptian hieroglyph d035
01309D Egyptian hieroglyph d036
01309E Egyptian hieroglyph d037
01309F Egyptian hieroglyph d038
0130A0 Egyptian hieroglyph d039
0130A1 Egyptian hieroglyph d040
0130A2 Egyptian hieroglyph d041
0130A3 Egyptian hieroglyph d042
0130A4 Egyptian hieroglyph d043
0130A5 Egyptian hieroglyph d044
0130A6 Egyptian hieroglyph d045
0130A7 Egyptian hieroglyph d046
0130A8 Egyptian hieroglyph d046a
0130A9 Egyptian hieroglyph d047
0130AA Egyptian hieroglyph d048
0130AB Egyptian hieroglyph d048a
0130AC Egyptian hieroglyph d049
0130AD Egyptian hieroglyph d050
0130AE Egyptian hieroglyph d050a
0130AF Egyptian hieroglyph d050b
0130B0 Egyptian hieroglyph d050c
0130B1 Egyptian hieroglyph d050d
0130B2 Egyptian hieroglyph d050e
0130B3 Egyptian hieroglyph d050f
0130B4 Egyptian hieroglyph d050g
0130B5 Egyptian hieroglyph d050h
0130B6 Egyptian hieroglyph d050i
0130B7 Egyptian hieroglyph d051
0130B8 Egyptian hieroglyph d052
0130B9 Egyptian hieroglyph d052a
0130BA Egyptian hieroglyph d053
0130BB Egyptian hieroglyph d054
0130BC Egyptian hieroglyph d054a
0130BD Egyptian hieroglyph d055
0130BE Egyptian hieroglyph d056
0130BF Egyptian hieroglyph d057
0130C0 Egyptian hieroglyph d058
0130C1 Egyptian hieroglyph d059
0130C2 Egyptian hieroglyph d060
0130C3 Egyptian hieroglyph d061
0130C4 Egyptian hieroglyph d062
0130C5 Egyptian hieroglyph d063
0130C6 Egyptian hieroglyph d064
0130C7 Egyptian hieroglyph d065
0130C8 Egyptian hieroglyph d066
0130C9 Egyptian hieroglyph d067
0130CA Egyptian hieroglyph d067a
0130CB Egyptian hieroglyph d067b
0130CC Egyptian hieroglyph d067c
0130CD Egyptian hieroglyph d067d
0130CE Egyptian hieroglyph d067e
0130CF Egyptian hieroglyph d067f
0130D0 Egyptian hieroglyph d067g
0130D1 Egyptian hieroglyph d067h
0130D2 Egyptian hieroglyph e001
0130D3 Egyptian hieroglyph e002
0130D4 Egyptian hieroglyph e003
0130D5 Egyptian hieroglyph e004
0130D6 Egyptian hieroglyph e005
0130D7 Egyptian hieroglyph e006
0130D8 Egyptian hieroglyph e007
0130D9 Egyptian hieroglyph e008
0130DA Egyptian hieroglyph e008a
0130DB Egyptian hieroglyph e009
0130DC Egyptian hieroglyph e009a
0130DD Egyptian hieroglyph e010
0130DE Egyptian hieroglyph e011
0130DF Egyptian hieroglyph e012
0130E0 Egyptian hieroglyph e013
0130E1 Egyptian hieroglyph e014
0130E2 Egyptian hieroglyph e015
0130E3 Egyptian hieroglyph e016
0130E4 Egyptian hieroglyph e016a
0130E5 Egyptian hieroglyph e017
0130E6 Egyptian hieroglyph e017a
0130E7 Egyptian hieroglyph e018
0130E8 Egyptian hieroglyph e019
0130E9 Egyptian hieroglyph e020
0130EA Egyptian hieroglyph e020a
0130EB Egyptian hieroglyph e021
0130EC Egyptian hieroglyph e022
0130ED Egyptian hieroglyph e023
0130EE Egyptian hieroglyph e024
0130EF Egyptian hieroglyph e025
0130F0 Egyptian hieroglyph e026
0130F1 Egyptian hieroglyph e027
0130F2 Egyptian hieroglyph e028
0130F3 Egyptian hieroglyph e028a
0130F4 Egyptian hieroglyph e029
0130F5 Egyptian hieroglyph e030
0130F6 Egyptian hieroglyph e031
0130F7 Egyptian hieroglyph e032
0130F8 Egyptian hieroglyph e033
0130F9 Egyptian hieroglyph e034
0130FA Egyptian hieroglyph e034a
0130FB Egyptian hieroglyph e036
0130FC Egyptian hieroglyph e037
0130FD Egyptian hieroglyph e038
0130FE Egyptian hieroglyph f001
0130FF Egyptian hieroglyph f001a
013100 Egyptian hieroglyph f002
013101 Egyptian hieroglyph f003
013102 Egyptian hieroglyph f004
013103 Egyptian hieroglyph f005
013104 Egyptian hieroglyph f006
013105 Egyptian hieroglyph f007
013106 Egyptian hieroglyph f008
013107 Egyptian hieroglyph f009
013108 Egyptian hieroglyph f010
013109 Egyptian hieroglyph f011
01310A Egyptian hieroglyph f012
";

pub const NAMES_55: &'static str = "01310B Egyptian hieroglyph f013
01310C Egyptian hieroglyph f013a
01310D Egyptian hieroglyph f014
01310E Egyptian hieroglyph f015
01310F Egyptian hieroglyph f016
013110 Egyptian hieroglyph f017
013111 Egyptian hieroglyph f018
013112 Egyptian hieroglyph f019
013113 Egyptian hieroglyph f020
013114 Egyptian hieroglyph f021
013115 Egyptian hieroglyph f021a
013116 Egyptian hieroglyph f022
013117 Egyptian hieroglyph f023
013118 Egyptian hieroglyph f024
013119 Egyptian hieroglyph f025
01311A Egyptian hieroglyph f026
01311B Egyptian hieroglyph f027
01311C Egyptian hieroglyph f028
01311D Egyptian hieroglyph f029
01311E Egyptian hieroglyph f030
01311F Egyptian hieroglyph f031
013120 Egyptian hieroglyph f031a
013121 Egyptian hieroglyph f032
013122 Egyptian hieroglyph f033
013123 Egyptian hieroglyph f034
013124 Egyptian hieroglyph f035
013125 Egyptian hieroglyph f036
013126 Egyptian hieroglyph f037
013127 Egyptian hieroglyph f037a
013128 Egyptian hieroglyph f038
013129 Egyptian hieroglyph f038a
01312A Egyptian hieroglyph f039
01312B Egyptian hieroglyph f040
01312C Egyptian hieroglyph f041
01312D Egyptian hieroglyph f042
01312E Egyptian hieroglyph f043
01312F Egyptian hieroglyph f044
013130 Egyptian hieroglyph f045
013131 Egyptian hieroglyph f045a
013132 Egyptian hieroglyph f046
013133 Egyptian hieroglyph f046a
013134 Egyptian hieroglyph f047
013135 Egyptian hieroglyph f047a
013136 Egyptian hieroglyph f048
013137 Egyptian hieroglyph f049
013138 Egyptian hieroglyph f050
013139 Egyptian hieroglyph f051
01313A Egyptian hieroglyph f051a
01313B Egyptian hieroglyph f051b
01313C Egyptian hieroglyph f051c
01313D Egyptian hieroglyph f052
01313E Egyptian hieroglyph f053
01313F Egyptian hieroglyph g001
013140 Egyptian hieroglyph g002
013141 Egyptian hieroglyph g003
013142 Egyptian hieroglyph g004
013143 Egyptian hieroglyph g005
013144 Egyptian hieroglyph g006
013145 Egyptian hieroglyph g006a
013146 Egyptian hieroglyph g007
013147 Egyptian hieroglyph g007a
013148 Egyptian hieroglyph g007b
013149 Egyptian hieroglyph g008
01314A Egyptian hieroglyph g009
01314B Egyptian hieroglyph g010
01314C Egyptian hieroglyph g011
01314D Egyptian hieroglyph g011a
01314E Egyptian hieroglyph g012
01314F Egyptian hieroglyph g013
013150 Egyptian hieroglyph g014
013151 Egyptian hieroglyph g015
013152 Egyptian hieroglyph g016
013153 Egyptian hieroglyph g017
013154 Egyptian hieroglyph g018
013155 Egyptian hieroglyph g019
013156 Egyptian hieroglyph g020
013157 Egyptian hieroglyph g020a
013158 Egyptian hieroglyph g021
013159 Egyptian hieroglyph g022
01315A Egyptian hieroglyph g023
01315B Egyptian hieroglyph g024
01315C Egyptian hieroglyph g025
01315D Egyptian hieroglyph g026
01315E Egyptian hieroglyph g026a
01315F Egyptian hieroglyph g027
013160 Egyptian hieroglyph g028
013161 Egyptian hieroglyph g029
013162 Egyptian hieroglyph g030
013163 Egyptian hieroglyph g031
013164 Egyptian hieroglyph g032
013165 Egyptian hieroglyph g033
013166 Egyptian hieroglyph g034
013167 Egyptian hieroglyph g035
013168 Egyptian hieroglyph g036
013169 Egyptian hieroglyph g036a
01316A Egyptian hieroglyph g037
01316B Egyptian hieroglyph g037a
01316C Egyptian hieroglyph g038
01316D Egyptian hieroglyph g039
01316E Egyptian hieroglyph g040
01316F Egyptian hieroglyph g041
013170 Egyptian hieroglyph g042
013171 Egyptian hieroglyph g043
013172 Egyptian hieroglyph g043a
013173 Egyptian hieroglyph g044
013174 Egyptian hieroglyph g045
013175 Egyptian hieroglyph g045a
013176 Egyptian hieroglyph g046
013177 Egyptian hieroglyph g047
013178 Egyptian hieroglyph g048
013179 Egyptian hieroglyph g049
01317A Egyptian hieroglyph g050
01317B Egyptian hieroglyph g051
01317C Egyptian hieroglyph g052
01317D Egyptian hieroglyph g053
01317E Egyptian hieroglyph g054
01317F Egyptian hieroglyph h001
013180 Egyptian hieroglyph h002
013181 Egyptian hieroglyph h003
013182 Egyptian hieroglyph h004
013183 Egyptian hieroglyph h005
013184 Egyptian hieroglyph h006
013185 Egyptian hieroglyph h006a
013186 Egyptian hieroglyph h007
013187 Egyptian hieroglyph h008
013188 Egyptian hieroglyph i001
013189 Egyptian hieroglyph i002
01318A Egyptian hieroglyph i003
01318B Egyptian hieroglyph i004
01318C Egyptian hieroglyph i005
01318D Egyptian hieroglyph i005a
01318E Egyptian hieroglyph i006
01318F Egyptian hieroglyph i007
013190 Egyptian hieroglyph i008
013191 Egyptian hieroglyph i009
013192 Egyptian hieroglyph i009a
013193 Egyptian hieroglyph i010
013194 Egyptian hieroglyph i010a
013195 Egyptian hieroglyph i011
013196 Egyptian hieroglyph i011a
013197 Egyptian hieroglyph i012
013198 Egyptian hieroglyph i013
013199 Egyptian hieroglyph i014
01319A Egyptian hieroglyph i015
01319B Egyptian hieroglyph k001
01319C Egyptian hieroglyph k002
01319D Egyptian hieroglyph k003
01319E Egyptian hieroglyph k004
01319F Egyptian hieroglyph k005
0131A0 Egyptian hieroglyph k006
0131A1 Egyptian hieroglyph k007
0131A2 Egyptian hieroglyph k008
0131A3 Egyptian hieroglyph l001
0131A4 Egyptian hieroglyph l002
0131A5 Egyptian hieroglyph l002a
0131A6 Egyptian hieroglyph l003
0131A7 Egyptian hieroglyph l004
0131A8 Egyptian hieroglyph l005
0131A9 Egyptian hieroglyph l006
0131AA Egyptian hieroglyph l006a
0131AB Egyptian hieroglyph l007
0131AC Egyptian hieroglyph l008
0131AD Egyptian hieroglyph m001
0131AE Egyptian hieroglyph m001a
0131AF Egyptian hieroglyph m001b
0131B0 Egyptian hieroglyph m002
0131B1 Egyptian hieroglyph m003
0131B2 Egyptian hieroglyph m003a
0131B3 Egyptian hieroglyph m004
0131B4 Egyptian hieroglyph m005
0131B5 Egyptian hieroglyph m006
0131B6 Egyptian hieroglyph m007
0131B7 Egyptian hieroglyph m008
0131B8 Egyptian hieroglyph m009
0131B9 Egyptian hieroglyph m010
0131BA Egyptian hieroglyph m010a
0131BB Egyptian hieroglyph m011
0131BC Egyptian hieroglyph m012
0131BD Egyptian hieroglyph m012a
0131BE Egyptian hieroglyph m012b
0131BF Egyptian hieroglyph m012c
0131C0 Egyptian hieroglyph m012d
0131C1 Egyptian hieroglyph m012e
0131C2 Egyptian hieroglyph m012f
0131C3 Egyptian hieroglyph m012g
0131C4 Egyptian hieroglyph m012h
0131C5 Egyptian hieroglyph m013
0131C6 Egyptian hieroglyph m014
0131C7 Egyptian hieroglyph m015
0131C8 Egyptian hieroglyph m015a
0131C9 Egyptian hieroglyph m016
0131CA Egyptian hieroglyph m016a
0131CB Egyptian hieroglyph m017
0131CC Egyptian hieroglyph m017a
0131CD Egyptian hieroglyph m018
0131CE Egyptian hieroglyph m019
0131CF Egyptian hieroglyph m020
0131D0 Egyptian hieroglyph m021
0131D1 Egyptian hieroglyph m022
0131D2 Egyptian hieroglyph m022a
0131D3 Egyptian hieroglyph m023
0131D4 Egyptian hieroglyph m024
0131D5 Egyptian hieroglyph m024a
0131D6 Egyptian hieroglyph m025
0131D7 Egyptian hieroglyph m026
0131D8 Egyptian hieroglyph m027
0131D9 Egyptian hieroglyph m028
0131DA Egyptian hieroglyph m028a
0131DB Egyptian hieroglyph m029
0131DC Egyptian hieroglyph m030
0131DD Egyptian hieroglyph m031
0131DE Egyptian hieroglyph m031a
0131DF Egyptian hieroglyph m032
0131E0 Egyptian hieroglyph m033
0131E1 Egyptian hieroglyph m033a
0131E2 Egyptian hieroglyph m033b
0131E3 Egyptian hieroglyph m034
0131E4 Egyptian hieroglyph m035
0131E5 Egyptian hieroglyph m036
0131E6 Egyptian hieroglyph m037
0131E7 Egyptian hieroglyph m038
0131E8 Egyptian hieroglyph m039
0131E9 Egyptian hieroglyph m040
0131EA Egyptian hieroglyph m040a
0131EB Egyptian hieroglyph m041
0131EC Egyptian hieroglyph m042
0131ED Egyptian hieroglyph m043
0131EE Egyptian hieroglyph m044
0131EF Egyptian hieroglyph n001
0131F0 Egyptian hieroglyph n002
0131F1 Egyptian hieroglyph n003
0131F2 Egyptian hieroglyph n004
0131F3 Egyptian hieroglyph n005
0131F4 Egyptian hieroglyph n006
0131F5 Egyptian hieroglyph n007
0131F6 Egyptian hieroglyph n008
0131F7 Egyptian hieroglyph n009
0131F8 Egyptian hieroglyph n010
0131F9 Egyptian hieroglyph n011
0131FA Egyptian hieroglyph n012
0131FB Egyptian hieroglyph n013
0131FC Egyptian hieroglyph n014
0131FD Egyptian hieroglyph n015
0131FE Egyptian hieroglyph n016
0131FF Egyptian hieroglyph n017
013200 Egyptian hieroglyph n018
013201 Egyptian hieroglyph n018a
013202 Egyptian hieroglyph n018b
013203 Egyptian hieroglyph n019
013204 Egyptian hieroglyph n020
013205 Egyptian hieroglyph n021
013206 Egyptian hieroglyph n022
013207 Egyptian hieroglyph n023
013208 Egyptian hieroglyph n024
013209 Egyptian hieroglyph n025
01320A Egyptian hieroglyph n025a
01320B Egyptian hieroglyph n026
01320C Egyptian hieroglyph n027
01320D Egyptian hieroglyph n028
01320E Egyptian hieroglyph n029
01320F Egyptian hieroglyph n030
013210 Egyptian hieroglyph n031
013211 Egyptian hieroglyph n032
013212 Egyptian hieroglyph n033
013213 Egyptian hieroglyph n033a
013214 Egyptian hieroglyph n034
013215 Egyptian hieroglyph n034a
013216 Egyptian hieroglyph n035
013217 Egyptian hieroglyph n035a
013218 Egyptian hieroglyph n036
013219 Egyptian hieroglyph n037
01321A Egyptian hieroglyph n037a
01321B Egyptian hieroglyph n038
01321C Egyptian hieroglyph n039
01321D Egyptian hieroglyph n040
01321E Egyptian hieroglyph n041
01321F Egyptian hieroglyph n042
013220 Egyptian hieroglyph nl001
013221 Egyptian hieroglyph nl002
013222 Egyptian hieroglyph nl003
013223 Egyptian hieroglyph nl004
013224 Egyptian hieroglyph nl005
013225 Egyptian hieroglyph nl005a
013226 Egyptian hieroglyph nl006
013227 Egyptian hieroglyph nl007
013228 Egyptian hieroglyph nl008
013229 Egyptian hieroglyph nl009
01322A Egyptian hieroglyph nl010
01322B Egyptian hieroglyph nl011
01322C Egyptian hieroglyph nl012
01322D Egyptian hieroglyph nl013
01322E Egyptian hieroglyph nl014
01322F Egyptian hieroglyph nl015
013230 Egyptian hieroglyph nl016
013231 Egyptian hieroglyph nl017
013232 Egyptian hieroglyph nl017a
013233 Egyptian hieroglyph nl018
013234 Egyptian hieroglyph nl019
013235 Egyptian hieroglyph nl020
013236 Egyptian hieroglyph nu001
013237 Egyptian hieroglyph nu002
013238 Egyptian hieroglyph nu003
013239 Egyptian hieroglyph nu004
01323A Egyptian hieroglyph nu005
01323B Egyptian hieroglyph nu006
01323C Egyptian hieroglyph nu007
01323D Egyptian hieroglyph nu008
01323E Egyptian hieroglyph nu009
01323F Egyptian hieroglyph nu010
013240 Egyptian hieroglyph nu010a
013241 Egyptian hieroglyph nu011
013242 Egyptian hieroglyph nu011a
013243 Egyptian hieroglyph nu012
013244 Egyptian hieroglyph nu013
013245 Egyptian hieroglyph nu014
013246 Egyptian hieroglyph nu015
013247 Egyptian hieroglyph nu016
013248 Egyptian hieroglyph nu017
013249 Egyptian hieroglyph nu018
01324A Egyptian hieroglyph nu018a
01324B Egyptian hieroglyph nu019
01324C Egyptian hieroglyph nu020
01324D Egyptian hieroglyph nu021
01324E Egyptian hieroglyph nu022
01324F Egyptian hieroglyph nu022a
013250 Egyptian hieroglyph o001
013251 Egyptian hieroglyph o001a
013252 Egyptian hieroglyph o002
013253 Egyptian hieroglyph o003
013254 Egyptian hieroglyph o004
013255 Egyptian hieroglyph o005
013256 Egyptian hieroglyph o005a
013257 Egyptian hieroglyph o006
013258 Egyptian hieroglyph o006a
013259 Egyptian hieroglyph o006b
01325A Egyptian hieroglyph o006c
01325B Egyptian hieroglyph o006d
01325C Egyptian hieroglyph o006e
01325D Egyptian hieroglyph o006f
01325E Egyptian hieroglyph o007
01325F Egyptian hieroglyph o008
013260 Egyptian hieroglyph o009
013261 Egyptian hieroglyph o010
013262 Egyptian hieroglyph o010a
013263 Egyptian hieroglyph o010b
013264 Egyptian hieroglyph o010c
013265 Egyptian hieroglyph o011
013266 Egyptian hieroglyph o012
013267 Egyptian hieroglyph o013
013268 Egyptian hieroglyph o014
013269 Egyptian hieroglyph o015
01326A Egyptian hieroglyph o016
01326B Egyptian hieroglyph o017
01326C Egyptian hieroglyph o018
01326D Egyptian hieroglyph o019
01326E Egyptian hieroglyph o019a
01326F Egyptian hieroglyph o020
013270 Egyptian hieroglyph o020a
013271 Egyptian hieroglyph o021
013272 Egyptian hieroglyph o022
013273 Egyptian hieroglyph o023
013274 Egyptian hieroglyph o024
013275 Egyptian hieroglyph o024a
013276 Egyptian hieroglyph o025
013277 Egyptian hieroglyph o025a
013278 Egyptian hieroglyph o026
013279 Egyptian hieroglyph o027
01327A Egyptian hieroglyph o028
01327B Egyptian hieroglyph o029
01327C Egyptian hieroglyph o029a
01327D Egyptian hieroglyph o030
01327E Egyptian hieroglyph o030a
01327F Egyptian hieroglyph o031
013280 Egyptian hieroglyph o032
013281 Egyptian hieroglyph o033
013282 Egyptian hieroglyph o033a
013283 Egyptian hieroglyph o034
013284 Egyptian hieroglyph o035
013285 Egyptian hieroglyph o036
013286 Egyptian hieroglyph o036a
013287 Egyptian hieroglyph o036b
013288 Egyptian hieroglyph o036c
013289 Egyptian hieroglyph o036d
01328A Egyptian hieroglyph o037
01328B Egyptian hieroglyph o038
01328C Egyptian hieroglyph o039
01328D Egyptian hieroglyph o040
01328E Egyptian hieroglyph o041
01328F Egyptian hieroglyph o042
013290 Egyptian hieroglyph o043
013291 Egyptian hieroglyph o044
013292 Egyptian hieroglyph o045
013293 Egyptian hieroglyph o046
013294 Egyptian hieroglyph o047
013295 Egyptian hieroglyph o048
013296 Egyptian hieroglyph o049
013297 Egyptian hieroglyph o050
013298 Egyptian hieroglyph o050a
013299 Egyptian hieroglyph o050b
01329A Egyptian hieroglyph o051
01329B Egyptian hieroglyph p001
01329C Egyptian hieroglyph p001a
01329D Egyptian hieroglyph p002
01329E Egyptian hieroglyph p003
01329F Egyptian hieroglyph p003a
0132A0 Egyptian hieroglyph p004
0132A1 Egyptian hieroglyph p005
0132A2 Egyptian hieroglyph p006
0132A3 Egyptian hieroglyph p007
0132A4 Egyptian hieroglyph p008
0132A5 Egyptian hieroglyph p009
0132A6 Egyptian hieroglyph p010
0132A7 Egyptian hieroglyph p011
0132A8 Egyptian hieroglyph q001
0132A9 Egyptian hieroglyph q002
0132AA Egyptian hieroglyph q003
0132AB Egyptian hieroglyph q004
0132AC Egyptian hieroglyph q005
0132AD Egyptian hieroglyph q006
0132AE Egyptian hieroglyph q007
0132AF Egyptian hieroglyph r001
0132B0 Egyptian hieroglyph r002
0132B1 Egyptian hieroglyph r002a
0132B2 Egyptian hieroglyph r003
0132B3 Egyptian hieroglyph r003a
0132B4 Egyptian hieroglyph r003b
0132B5 Egyptian hieroglyph r004
0132B6 Egyptian hieroglyph r005
0132B7 Egyptian hieroglyph r006
0132B8 Egyptian hieroglyph r007
0132B9 Egyptian hieroglyph r008
0132BA Egyptian hieroglyph r009
0132BB Egyptian hieroglyph r010
";

pub const NAMES_56: &'static str = "0132BC Egyptian hieroglyph r010a
0132BD Egyptian hieroglyph r011
0132BE Egyptian hieroglyph r012
0132BF Egyptian hieroglyph r013
0132C0 Egyptian hieroglyph r014
0132C1 Egyptian hieroglyph r015
0132C2 Egyptian hieroglyph r016
0132C3 Egyptian hieroglyph r016a
0132C4 Egyptian hieroglyph r017
0132C5 Egyptian hieroglyph r018
0132C6 Egyptian hieroglyph r019
0132C7 Egyptian hieroglyph r020
0132C8 Egyptian hieroglyph r021
0132C9 Egyptian hieroglyph r022
0132CA Egyptian hieroglyph r023
0132CB Egyptian hieroglyph r024
0132CC Egyptian hieroglyph r025
0132CD Egyptian hieroglyph r026
0132CE Egyptian hieroglyph r027
0132CF Egyptian hieroglyph r028
0132D0 Egyptian hieroglyph r029
0132D1 Egyptian hieroglyph s001
0132D2 Egyptian hieroglyph s002
0132D3 Egyptian hieroglyph s002a
0132D4 Egyptian hieroglyph s003
0132D5 Egyptian hieroglyph s004
0132D6 Egyptian hieroglyph s005
0132D7 Egyptian hieroglyph s006
0132D8 Egyptian hieroglyph s006a
0132D9 Egyptian hieroglyph s007
0132DA Egyptian hieroglyph s008
0132DB Egyptian hieroglyph s009
0132DC Egyptian hieroglyph s010
0132DD Egyptian hieroglyph s011
0132DE Egyptian hieroglyph s012
0132DF Egyptian hieroglyph s013
0132E0 Egyptian hieroglyph s014
0132E1 Egyptian hieroglyph s014a
0132E2 Egyptian hieroglyph s014b
0132E3 Egyptian hieroglyph s015
0132E4 Egyptian hieroglyph s016
0132E5 Egyptian hieroglyph s017
0132E6 Egyptian hieroglyph s017a
0132E7 Egyptian hieroglyph s018
0132E8 Egyptian hieroglyph s019
0132E9 Egyptian hieroglyph s020
0132EA Egyptian hieroglyph s021
0132EB Egyptian hieroglyph s022
0132EC Egyptian hieroglyph s023
0132ED Egyptian hieroglyph s024
0132EE Egyptian hieroglyph s025
0132EF Egyptian hieroglyph s026
0132F0 Egyptian hieroglyph s026a
0132F1 Egyptian hieroglyph s026b
0132F2 Egyptian hieroglyph s027
0132F3 Egyptian hieroglyph s028
0132F4 Egyptian hieroglyph s029
0132F5 Egyptian hieroglyph s030
0132F6 Egyptian hieroglyph s031
0132F7 Egyptian hieroglyph s032
0132F8 Egyptian hieroglyph s033
0132F9 Egyptian hieroglyph s034
0132FA Egyptian hieroglyph s035
0132FB Egyptian hieroglyph s035a
0132FC Egyptian hieroglyph s036
0132FD Egyptian hieroglyph s037
0132FE Egyptian hieroglyph s038
0132FF Egyptian hieroglyph s039
013300 Egyptian hieroglyph s040
013301 Egyptian hieroglyph s041
013302 Egyptian hieroglyph s042
013303 Egyptian hieroglyph s043
013304 Egyptian hieroglyph s044
013305 Egyptian hieroglyph s045
013306 Egyptian hieroglyph s046
013307 Egyptian hieroglyph t001
013308 Egyptian hieroglyph t002
013309 Egyptian hieroglyph t003
01330A Egyptian hieroglyph t003a
01330B Egyptian hieroglyph t004
01330C Egyptian hieroglyph t005
01330D Egyptian hieroglyph t006
01330E Egyptian hieroglyph t007
01330F Egyptian hieroglyph t007a
013310 Egyptian hieroglyph t008
013311 Egyptian hieroglyph t008a
013312 Egyptian hieroglyph t009
013313 Egyptian hieroglyph t009a
013314 Egyptian hieroglyph t010
013315 Egyptian hieroglyph t011
013316 Egyptian hieroglyph t011a
013317 Egyptian hieroglyph t012
013318 Egyptian hieroglyph t013
013319 Egyptian hieroglyph t014
01331A Egyptian hieroglyph t015
01331B Egyptian hieroglyph t016
01331C Egyptian hieroglyph t016a
01331D Egyptian hieroglyph t017
01331E Egyptian hieroglyph t018
01331F Egyptian hieroglyph t019
013320 Egyptian hieroglyph t020
013321 Egyptian hieroglyph t021
013322 Egyptian hieroglyph t022
013323 Egyptian hieroglyph t023
013324 Egyptian hieroglyph t024
013325 Egyptian hieroglyph t025
013326 Egyptian hieroglyph t026
013327 Egyptian hieroglyph t027
013328 Egyptian hieroglyph t028
013329 Egyptian hieroglyph t029
01332A Egyptian hieroglyph t030
01332B Egyptian hieroglyph t031
01332C Egyptian hieroglyph t032
01332D Egyptian hieroglyph t032a
01332E Egyptian hieroglyph t033
01332F Egyptian hieroglyph t033a
013330 Egyptian hieroglyph t034
013331 Egyptian hieroglyph t035
013332 Egyptian hieroglyph t036
013333 Egyptian hieroglyph u001
013334 Egyptian hieroglyph u002
013335 Egyptian hieroglyph u003
013336 Egyptian hieroglyph u004
013337 Egyptian hieroglyph u005
013338 Egyptian hieroglyph u006
013339 Egyptian hieroglyph u006a
01333A Egyptian hieroglyph u006b
01333B Egyptian hieroglyph u007
01333C Egyptian hieroglyph u008
01333D Egyptian hieroglyph u009
01333E Egyptian hieroglyph u010
01333F Egyptian hieroglyph u011
013340 Egyptian hieroglyph u012
013341 Egyptian hieroglyph u013
013342 Egyptian hieroglyph u014
013343 Egyptian hieroglyph u015
013344 Egyptian hieroglyph u016
013345 Egyptian hieroglyph u017
013346 Egyptian hieroglyph u018
013347 Egyptian hieroglyph u019
013348 Egyptian hieroglyph u020
013349 Egyptian hieroglyph u021
01334A Egyptian hieroglyph u022
01334B Egyptian hieroglyph u023
01334C Egyptian hieroglyph u023a
01334D Egyptian hieroglyph u024
01334E Egyptian hieroglyph u025
01334F Egyptian hieroglyph u026
013350 Egyptian hieroglyph u027
013351 Egyptian hieroglyph u028
013352 Egyptian hieroglyph u029
013353 Egyptian hieroglyph u029a
013354 Egyptian hieroglyph u030
013355 Egyptian hieroglyph u031
013356 Egyptian hieroglyph u032
013357 Egyptian hieroglyph u032a
013358 Egyptian hieroglyph u033
013359 Egyptian hieroglyph u034
01335A Egyptian hieroglyph u035
01335B Egyptian hieroglyph u036
01335C Egyptian hieroglyph u037
01335D Egyptian hieroglyph u038
01335E Egyptian hieroglyph u039
01335F Egyptian hieroglyph u040
013360 Egyptian hieroglyph u041
013361 Egyptian hieroglyph u042
013362 Egyptian hieroglyph v001
013363 Egyptian hieroglyph v001a
013364 Egyptian hieroglyph v001b
013365 Egyptian hieroglyph v001c
013366 Egyptian hieroglyph v001d
013367 Egyptian hieroglyph v001e
013368 Egyptian hieroglyph v001f
013369 Egyptian hieroglyph v001g
01336A Egyptian hieroglyph v001h
01336B Egyptian hieroglyph v001i
01336C Egyptian hieroglyph v002
01336D Egyptian hieroglyph v002a
01336E Egyptian hieroglyph v003
01336F Egyptian hieroglyph v004
013370 Egyptian hieroglyph v005
013371 Egyptian hieroglyph v006
013372 Egyptian hieroglyph v007
013373 Egyptian hieroglyph v007a
013374 Egyptian hieroglyph v007b
013375 Egyptian hieroglyph v008
013376 Egyptian hieroglyph v009
013377 Egyptian hieroglyph v010
013378 Egyptian hieroglyph v011
013379 Egyptian hieroglyph v011a
01337A Egyptian hieroglyph v011b
01337B Egyptian hieroglyph v011c
01337C Egyptian hieroglyph v012
01337D Egyptian hieroglyph v012a
01337E Egyptian hieroglyph v012b
01337F Egyptian hieroglyph v013
013380 Egyptian hieroglyph v014
013381 Egyptian hieroglyph v015
013382 Egyptian hieroglyph v016
013383 Egyptian hieroglyph v017
013384 Egyptian hieroglyph v018
013385 Egyptian hieroglyph v019
013386 Egyptian hieroglyph v020
013387 Egyptian hieroglyph v020a
013388 Egyptian hieroglyph v020b
013389 Egyptian hieroglyph v020c
01338A Egyptian hieroglyph v020d
01338B Egyptian hieroglyph v020e
01338C Egyptian hieroglyph v020f
01338D Egyptian hieroglyph v020g
01338E Egyptian hieroglyph v020h
01338F Egyptian hieroglyph v020i
013390 Egyptian hieroglyph v020j
013391 Egyptian hieroglyph v020k
013392 Egyptian hieroglyph v020l
013393 Egyptian hieroglyph v021
013394 Egyptian hieroglyph v022
013395 Egyptian hieroglyph v023
013396 Egyptian hieroglyph v023a
013397 Egyptian hieroglyph v024
013398 Egyptian hieroglyph v025
013399 Egyptian hieroglyph v026
01339A Egyptian hieroglyph v027
01339B Egyptian hieroglyph v028
01339C Egyptian hieroglyph v028a
01339D Egyptian hieroglyph v029
01339E Egyptian hieroglyph v029a
01339F Egyptian hieroglyph v030
0133A0 Egyptian hieroglyph v030a
0133A1 Egyptian hieroglyph v031
0133A2 Egyptian hieroglyph v031a
0133A3 Egyptian hieroglyph v032
0133A4 Egyptian hieroglyph v033
0133A5 Egyptian hieroglyph v033a
0133A6 Egyptian hieroglyph v034
0133A7 Egyptian hieroglyph v035
0133A8 Egyptian hieroglyph v036
0133A9 Egyptian hieroglyph v037
0133AA Egyptian hieroglyph v037a
0133AB Egyptian hieroglyph v038
0133AC Egyptian hieroglyph v039
0133AD Egyptian hieroglyph v040
0133AE Egyptian hieroglyph v040a
0133AF Egyptian hieroglyph w001
0133B0 Egyptian hieroglyph w002
0133B1 Egyptian hieroglyph w003
0133B2 Egyptian hieroglyph w003a
0133B3 Egyptian hieroglyph w004
0133B4 Egyptian hieroglyph w005
0133B5 Egyptian hieroglyph w006
0133B6 Egyptian hieroglyph w007
0133B7 Egyptian hieroglyph w008
0133B8 Egyptian hieroglyph w009
0133B9 Egyptian hieroglyph w009a
0133BA Egyptian hieroglyph w010
0133BB Egyptian hieroglyph w010a
0133BC Egyptian hieroglyph w011
0133BD Egyptian hieroglyph w012
0133BE Egyptian hieroglyph w013
0133BF Egyptian hieroglyph w014
0133C0 Egyptian hieroglyph w014a
0133C1 Egyptian hieroglyph w015
0133C2 Egyptian hieroglyph w016
0133C3 Egyptian hieroglyph w017
0133C4 Egyptian hieroglyph w017a
0133C5 Egyptian hieroglyph w018
0133C6 Egyptian hieroglyph w018a
0133C7 Egyptian hieroglyph w019
0133C8 Egyptian hieroglyph w020
0133C9 Egyptian hieroglyph w021
0133CA Egyptian hieroglyph w022
0133CB Egyptian hieroglyph w023
0133CC Egyptian hieroglyph w024
0133CD Egyptian hieroglyph w024a
0133CE Egyptian hieroglyph w025
0133CF Egyptian hieroglyph x001
0133D0 Egyptian hieroglyph x002
0133D1 Egyptian hieroglyph x003
0133D2 Egyptian hieroglyph x004
0133D3 Egyptian hieroglyph x004a
0133D4 Egyptian hieroglyph x004b
0133D5 Egyptian hieroglyph x005
0133D6 Egyptian hieroglyph x006
0133D7 Egyptian hieroglyph x006a
0133D8 Egyptian hieroglyph x007
0133D9 Egyptian hieroglyph x008
0133DA Egyptian hieroglyph x008a
0133DB Egyptian hieroglyph y001
0133DC Egyptian hieroglyph y001a
0133DD Egyptian hieroglyph y002
0133DE Egyptian hieroglyph y003
0133DF Egyptian hieroglyph y004
0133E0 Egyptian hieroglyph y005
0133E1 Egyptian hieroglyph y006
0133E2 Egyptian hieroglyph y007
0133E3 Egyptian hieroglyph y008
0133E4 Egyptian hieroglyph z001
0133E5 Egyptian hieroglyph z002
0133E6 Egyptian hieroglyph z002a
0133E7 Egyptian hieroglyph z002b
0133E8 Egyptian hieroglyph z002c
0133E9 Egyptian hieroglyph z002d
0133EA Egyptian hieroglyph z003
0133EB Egyptian hieroglyph z003a
0133EC Egyptian hieroglyph z003b
0133ED Egyptian hieroglyph z004
0133EE Egyptian hieroglyph z004a
0133EF Egyptian hieroglyph z005
0133F0 Egyptian hieroglyph z005a
0133F1 Egyptian hieroglyph z006
0133F2 Egyptian hieroglyph z007
0133F3 Egyptian hieroglyph z008
0133F4 Egyptian hieroglyph z009
0133F5 Egyptian hieroglyph z010
0133F6 Egyptian hieroglyph z011
0133F7 Egyptian hieroglyph z012
0133F8 Egyptian hieroglyph z013
0133F9 Egyptian hieroglyph z014
0133FA Egyptian hieroglyph z015
0133FB Egyptian hieroglyph z015a
0133FC Egyptian hieroglyph z015b
0133FD Egyptian hieroglyph z015c
0133FE Egyptian hieroglyph z015d
0133FF Egyptian hieroglyph z015e
013400 Egyptian hieroglyph z015f
013401 Egyptian hieroglyph z015g
013402 Egyptian hieroglyph z015h
013403 Egyptian hieroglyph z015i
013404 Egyptian hieroglyph z016
013405 Egyptian hieroglyph z016a
013406 Egyptian hieroglyph z016b
013407 Egyptian hieroglyph z016c
013408 Egyptian hieroglyph z016d
013409 Egyptian hieroglyph z016e
01340A Egyptian hieroglyph z016f
01340B Egyptian hieroglyph z016g
01340C Egyptian hieroglyph z016h
01340D Egyptian hieroglyph aa001
01340E Egyptian hieroglyph aa002
01340F Egyptian hieroglyph aa003
013410 Egyptian hieroglyph aa004
013411 Egyptian hieroglyph aa005
013412 Egyptian hieroglyph aa006
013413 Egyptian hieroglyph aa007
013414 Egyptian hieroglyph aa007a
013415 Egyptian hieroglyph aa007b
013416 Egyptian hieroglyph aa008
013417 Egyptian hieroglyph aa009
013418 Egyptian hieroglyph aa010
013419 Egyptian hieroglyph aa011
01341A Egyptian hieroglyph aa012
01341B Egyptian hieroglyph aa013
01341C Egyptian hieroglyph aa014
01341D Egyptian hieroglyph aa015
01341E Egyptian hieroglyph aa016
01341F Egyptian hieroglyph aa017
013420 Egyptian hieroglyph aa018
013421 Egyptian hieroglyph aa019
013422 Egyptian hieroglyph aa020
013423 Egyptian hieroglyph aa021
013424 Egyptian hieroglyph aa022
013425 Egyptian hieroglyph aa023
013426 Egyptian hieroglyph aa024
013427 Egyptian hieroglyph aa025
013428 Egyptian hieroglyph aa026
013429 Egyptian hieroglyph aa027
01342A Egyptian hieroglyph aa028
01342B Egyptian hieroglyph aa029
01342C Egyptian hieroglyph aa030
01342D Egyptian hieroglyph aa031
01342E Egyptian hieroglyph aa032
013430 Egyptian hieroglyph vertical joiner
013431 Egyptian hieroglyph horizontal joiner
013432 Egyptian hieroglyph insert at top start
013433 Egyptian hieroglyph insert at bottom start
013434 Egyptian hieroglyph insert at top end
013435 Egyptian hieroglyph insert at bottom end
013436 Egyptian hieroglyph overlay middle
013437 Egyptian hieroglyph begin segment
013438 Egyptian hieroglyph end segment
014400 Anatolian hieroglyph a001
014401 Anatolian hieroglyph a002
014402 Anatolian hieroglyph a003
014403 Anatolian hieroglyph a004
014404 Anatolian hieroglyph a005
014405 Anatolian hieroglyph a006
014406 Anatolian hieroglyph a007
014407 Anatolian hieroglyph a008
014408 Anatolian hieroglyph a009
014409 Anatolian hieroglyph a010
01440A Anatolian hieroglyph a010a
01440B Anatolian hieroglyph a011
01440C Anatolian hieroglyph a012
01440D Anatolian hieroglyph a013
01440E Anatolian hieroglyph a014
01440F Anatolian hieroglyph a015
014410 Anatolian hieroglyph a016
014411 Anatolian hieroglyph a017
014412 Anatolian hieroglyph a018
014413 Anatolian hieroglyph a019
014414 Anatolian hieroglyph a020
014415 Anatolian hieroglyph a021
014416 Anatolian hieroglyph a022
014417 Anatolian hieroglyph a023
014418 Anatolian hieroglyph a024
014419 Anatolian hieroglyph a025
01441A Anatolian hieroglyph a026
01441B Anatolian hieroglyph a026a
01441C Anatolian hieroglyph a027
01441D Anatolian hieroglyph a028
01441E Anatolian hieroglyph a029
01441F Anatolian hieroglyph a030
014420 Anatolian hieroglyph a031
014421 Anatolian hieroglyph a032
014422 Anatolian hieroglyph a033
014423 Anatolian hieroglyph a034
014424 Anatolian hieroglyph a035
014425 Anatolian hieroglyph a036
014426 Anatolian hieroglyph a037
014427 Anatolian hieroglyph a038
014428 Anatolian hieroglyph a039
014429 Anatolian hieroglyph a039a
01442A Anatolian hieroglyph a040
01442B Anatolian hieroglyph a041
01442C Anatolian hieroglyph a041a
01442D Anatolian hieroglyph a042
01442E Anatolian hieroglyph a043
01442F Anatolian hieroglyph a044
";

pub const NAMES_57: &'static str = "014430 Anatolian hieroglyph a045
014431 Anatolian hieroglyph a045a
014432 Anatolian hieroglyph a046
014433 Anatolian hieroglyph a046a
014434 Anatolian hieroglyph a046b
014435 Anatolian hieroglyph a047
014436 Anatolian hieroglyph a048
014437 Anatolian hieroglyph a049
014438 Anatolian hieroglyph a050
014439 Anatolian hieroglyph a051
01443A Anatolian hieroglyph a052
01443B Anatolian hieroglyph a053
01443C Anatolian hieroglyph a054
01443D Anatolian hieroglyph a055
01443E Anatolian hieroglyph a056
01443F Anatolian hieroglyph a057
014440 Anatolian hieroglyph a058
014441 Anatolian hieroglyph a059
014442 Anatolian hieroglyph a060
014443 Anatolian hieroglyph a061
014444 Anatolian hieroglyph a062
014445 Anatolian hieroglyph a063
014446 Anatolian hieroglyph a064
014447 Anatolian hieroglyph a065
014448 Anatolian hieroglyph a066
014449 Anatolian hieroglyph a066a
01444A Anatolian hieroglyph a066b
01444B Anatolian hieroglyph a066c
01444C Anatolian hieroglyph a067
01444D Anatolian hieroglyph a068
01444E Anatolian hieroglyph a069
01444F Anatolian hieroglyph a070
014450 Anatolian hieroglyph a071
014451 Anatolian hieroglyph a072
014452 Anatolian hieroglyph a073
014453 Anatolian hieroglyph a074
014454 Anatolian hieroglyph a075
014455 Anatolian hieroglyph a076
014456 Anatolian hieroglyph a077
014457 Anatolian hieroglyph a078
014458 Anatolian hieroglyph a079
014459 Anatolian hieroglyph a080
01445A Anatolian hieroglyph a081
01445B Anatolian hieroglyph a082
01445C Anatolian hieroglyph a083
01445D Anatolian hieroglyph a084
01445E Anatolian hieroglyph a085
01445F Anatolian hieroglyph a086
014460 Anatolian hieroglyph a087
014461 Anatolian hieroglyph a088
014462 Anatolian hieroglyph a089
014463 Anatolian hieroglyph a090
014464 Anatolian hieroglyph a091
014465 Anatolian hieroglyph a092
014466 Anatolian hieroglyph a093
014467 Anatolian hieroglyph a094
014468 Anatolian hieroglyph a095
014469 Anatolian hieroglyph a096
01446A Anatolian hieroglyph a097
01446B Anatolian hieroglyph a097a
01446C Anatolian hieroglyph a098
01446D Anatolian hieroglyph a098a
01446E Anatolian hieroglyph a099
01446F Anatolian hieroglyph a100
014470 Anatolian hieroglyph a100a
014471 Anatolian hieroglyph a101
014472 Anatolian hieroglyph a101a
014473 Anatolian hieroglyph a102
014474 Anatolian hieroglyph a102a
014475 Anatolian hieroglyph a103
014476 Anatolian hieroglyph a104
014477 Anatolian hieroglyph a104a
014478 Anatolian hieroglyph a104b
014479 Anatolian hieroglyph a104c
01447A Anatolian hieroglyph a105
01447B Anatolian hieroglyph a105a
01447C Anatolian hieroglyph a105b
01447D Anatolian hieroglyph a106
01447E Anatolian hieroglyph a107
01447F Anatolian hieroglyph a107a
014480 Anatolian hieroglyph a107b
014481 Anatolian hieroglyph a107c
014482 Anatolian hieroglyph a108
014483 Anatolian hieroglyph a109
014484 Anatolian hieroglyph a110
014485 Anatolian hieroglyph a110a
014486 Anatolian hieroglyph a110b
014487 Anatolian hieroglyph a111
014488 Anatolian hieroglyph a112
014489 Anatolian hieroglyph a113
01448A Anatolian hieroglyph a114
01448B Anatolian hieroglyph a115
01448C Anatolian hieroglyph a115a
01448D Anatolian hieroglyph a116
01448E Anatolian hieroglyph a117
01448F Anatolian hieroglyph a118
014490 Anatolian hieroglyph a119
014491 Anatolian hieroglyph a120
014492 Anatolian hieroglyph a121
014493 Anatolian hieroglyph a122
014494 Anatolian hieroglyph a123
014495 Anatolian hieroglyph a124
014496 Anatolian hieroglyph a125
014497 Anatolian hieroglyph a125a
014498 Anatolian hieroglyph a126
014499 Anatolian hieroglyph a127
01449A Anatolian hieroglyph a128
01449B Anatolian hieroglyph a129
01449C Anatolian hieroglyph a130
01449D Anatolian hieroglyph a131
01449E Anatolian hieroglyph a132
01449F Anatolian hieroglyph a133
0144A0 Anatolian hieroglyph a134
0144A1 Anatolian hieroglyph a135
0144A2 Anatolian hieroglyph a135a
0144A3 Anatolian hieroglyph a136
0144A4 Anatolian hieroglyph a137
0144A5 Anatolian hieroglyph a138
0144A6 Anatolian hieroglyph a139
0144A7 Anatolian hieroglyph a140
0144A8 Anatolian hieroglyph a141
0144A9 Anatolian hieroglyph a142
0144AA Anatolian hieroglyph a143
0144AB Anatolian hieroglyph a144
0144AC Anatolian hieroglyph a145
0144AD Anatolian hieroglyph a146
0144AE Anatolian hieroglyph a147
0144AF Anatolian hieroglyph a148
0144B0 Anatolian hieroglyph a149
0144B1 Anatolian hieroglyph a150
0144B2 Anatolian hieroglyph a151
0144B3 Anatolian hieroglyph a152
0144B4 Anatolian hieroglyph a153
0144B5 Anatolian hieroglyph a154
0144B6 Anatolian hieroglyph a155
0144B7 Anatolian hieroglyph a156
0144B8 Anatolian hieroglyph a157
0144B9 Anatolian hieroglyph a158
0144BA Anatolian hieroglyph a159
0144BB Anatolian hieroglyph a160
0144BC Anatolian hieroglyph a161
0144BD Anatolian hieroglyph a162
0144BE Anatolian hieroglyph a163
0144BF Anatolian hieroglyph a164
0144C0 Anatolian hieroglyph a165
0144C1 Anatolian hieroglyph a166
0144C2 Anatolian hieroglyph a167
0144C3 Anatolian hieroglyph a168
0144C4 Anatolian hieroglyph a169
0144C5 Anatolian hieroglyph a170
0144C6 Anatolian hieroglyph a171
0144C7 Anatolian hieroglyph a172
0144C8 Anatolian hieroglyph a173
0144C9 Anatolian hieroglyph a174
0144CA Anatolian hieroglyph a175
0144CB Anatolian hieroglyph a176
0144CC Anatolian hieroglyph a177
0144CD Anatolian hieroglyph a178
0144CE Anatolian hieroglyph a179
0144CF Anatolian hieroglyph a180
0144D0 Anatolian hieroglyph a181
0144D1 Anatolian hieroglyph a182
0144D2 Anatolian hieroglyph a183
0144D3 Anatolian hieroglyph a184
0144D4 Anatolian hieroglyph a185
0144D5 Anatolian hieroglyph a186
0144D6 Anatolian hieroglyph a187
0144D7 Anatolian hieroglyph a188
0144D8 Anatolian hieroglyph a189
0144D9 Anatolian hieroglyph a190
0144DA Anatolian hieroglyph a191
0144DB Anatolian hieroglyph a192
0144DC Anatolian hieroglyph a193
0144DD Anatolian hieroglyph a194
0144DE Anatolian hieroglyph a195
0144DF Anatolian hieroglyph a196
0144E0 Anatolian hieroglyph a197
0144E1 Anatolian hieroglyph a198
0144E2 Anatolian hieroglyph a199
0144E3 Anatolian hieroglyph a200
0144E4 Anatolian hieroglyph a201
0144E5 Anatolian hieroglyph a202
0144E6 Anatolian hieroglyph a202a
0144E7 Anatolian hieroglyph a202b
0144E8 Anatolian hieroglyph a203
0144E9 Anatolian hieroglyph a204
0144EA Anatolian hieroglyph a205
0144EB Anatolian hieroglyph a206
0144EC Anatolian hieroglyph a207
0144ED Anatolian hieroglyph a207a
0144EE Anatolian hieroglyph a208
0144EF Anatolian hieroglyph a209
0144F0 Anatolian hieroglyph a209a
0144F1 Anatolian hieroglyph a210
0144F2 Anatolian hieroglyph a211
0144F3 Anatolian hieroglyph a212
0144F4 Anatolian hieroglyph a213
0144F5 Anatolian hieroglyph a214
0144F6 Anatolian hieroglyph a215
0144F7 Anatolian hieroglyph a215a
0144F8 Anatolian hieroglyph a216
0144F9 Anatolian hieroglyph a216a
0144FA Anatolian hieroglyph a217
0144FB Anatolian hieroglyph a218
0144FC Anatolian hieroglyph a219
0144FD Anatolian hieroglyph a220
0144FE Anatolian hieroglyph a221
0144FF Anatolian hieroglyph a222
014500 Anatolian hieroglyph a223
014501 Anatolian hieroglyph a224
014502 Anatolian hieroglyph a225
014503 Anatolian hieroglyph a226
014504 Anatolian hieroglyph a227
014505 Anatolian hieroglyph a227a
014506 Anatolian hieroglyph a228
014507 Anatolian hieroglyph a229
014508 Anatolian hieroglyph a230
014509 Anatolian hieroglyph a231
01450A Anatolian hieroglyph a232
01450B Anatolian hieroglyph a233
01450C Anatolian hieroglyph a234
01450D Anatolian hieroglyph a235
01450E Anatolian hieroglyph a236
01450F Anatolian hieroglyph a237
014510 Anatolian hieroglyph a238
014511 Anatolian hieroglyph a239
014512 Anatolian hieroglyph a240
014513 Anatolian hieroglyph a241
014514 Anatolian hieroglyph a242
014515 Anatolian hieroglyph a243
014516 Anatolian hieroglyph a244
014517 Anatolian hieroglyph a245
014518 Anatolian hieroglyph a246
014519 Anatolian hieroglyph a247
01451A Anatolian hieroglyph a248
01451B Anatolian hieroglyph a249
01451C Anatolian hieroglyph a250
01451D Anatolian hieroglyph a251
01451E Anatolian hieroglyph a252
01451F Anatolian hieroglyph a253
014520 Anatolian hieroglyph a254
014521 Anatolian hieroglyph a255
014522 Anatolian hieroglyph a256
014523 Anatolian hieroglyph a257
014524 Anatolian hieroglyph a258
014525 Anatolian hieroglyph a259
014526 Anatolian hieroglyph a260
014527 Anatolian hieroglyph a261
014528 Anatolian hieroglyph a262
014529 Anatolian hieroglyph a263
01452A Anatolian hieroglyph a264
01452B Anatolian hieroglyph a265
01452C Anatolian hieroglyph a266
01452D Anatolian hieroglyph a267
01452E Anatolian hieroglyph a267a
01452F Anatolian hieroglyph a268
014530 Anatolian hieroglyph a269
014531 Anatolian hieroglyph a270
014532 Anatolian hieroglyph a271
014533 Anatolian hieroglyph a272
014534 Anatolian hieroglyph a273
014535 Anatolian hieroglyph a274
014536 Anatolian hieroglyph a275
014537 Anatolian hieroglyph a276
014538 Anatolian hieroglyph a277
014539 Anatolian hieroglyph a278
01453A Anatolian hieroglyph a279
01453B Anatolian hieroglyph a280
01453C Anatolian hieroglyph a281
01453D Anatolian hieroglyph a282
01453E Anatolian hieroglyph a283
01453F Anatolian hieroglyph a284
014540 Anatolian hieroglyph a285
014541 Anatolian hieroglyph a286
014542 Anatolian hieroglyph a287
014543 Anatolian hieroglyph a288
014544 Anatolian hieroglyph a289
014545 Anatolian hieroglyph a289a
014546 Anatolian hieroglyph a290
014547 Anatolian hieroglyph a291
014548 Anatolian hieroglyph a292
014549 Anatolian hieroglyph a293
01454A Anatolian hieroglyph a294
01454B Anatolian hieroglyph a294a
01454C Anatolian hieroglyph a295
01454D Anatolian hieroglyph a296
01454E Anatolian hieroglyph a297
01454F Anatolian hieroglyph a298
014550 Anatolian hieroglyph a299
014551 Anatolian hieroglyph a299a
014552 Anatolian hieroglyph a300
014553 Anatolian hieroglyph a301
014554 Anatolian hieroglyph a302
014555 Anatolian hieroglyph a303
014556 Anatolian hieroglyph a304
014557 Anatolian hieroglyph a305
014558 Anatolian hieroglyph a306
014559 Anatolian hieroglyph a307
01455A Anatolian hieroglyph a308
01455B Anatolian hieroglyph a309
01455C Anatolian hieroglyph a309a
01455D Anatolian hieroglyph a310
01455E Anatolian hieroglyph a311
01455F Anatolian hieroglyph a312
014560 Anatolian hieroglyph a313
014561 Anatolian hieroglyph a314
014562 Anatolian hieroglyph a315
014563 Anatolian hieroglyph a316
014564 Anatolian hieroglyph a317
014565 Anatolian hieroglyph a318
014566 Anatolian hieroglyph a319
014567 Anatolian hieroglyph a320
014568 Anatolian hieroglyph a321
014569 Anatolian hieroglyph a322
01456A Anatolian hieroglyph a323
01456B Anatolian hieroglyph a324
01456C Anatolian hieroglyph a325
01456D Anatolian hieroglyph a326
01456E Anatolian hieroglyph a327
01456F Anatolian hieroglyph a328
014570 Anatolian hieroglyph a329
014571 Anatolian hieroglyph a329a
014572 Anatolian hieroglyph a330
014573 Anatolian hieroglyph a331
014574 Anatolian hieroglyph a332a
014575 Anatolian hieroglyph a332b
014576 Anatolian hieroglyph a332c
014577 Anatolian hieroglyph a333
014578 Anatolian hieroglyph a334
014579 Anatolian hieroglyph a335
01457A Anatolian hieroglyph a336
01457B Anatolian hieroglyph a336a
01457C Anatolian hieroglyph a336b
01457D Anatolian hieroglyph a336c
01457E Anatolian hieroglyph a337
01457F Anatolian hieroglyph a338
014580 Anatolian hieroglyph a339
014581 Anatolian hieroglyph a340
014582 Anatolian hieroglyph a341
014583 Anatolian hieroglyph a342
014584 Anatolian hieroglyph a343
014585 Anatolian hieroglyph a344
014586 Anatolian hieroglyph a345
014587 Anatolian hieroglyph a346
014588 Anatolian hieroglyph a347
014589 Anatolian hieroglyph a348
01458A Anatolian hieroglyph a349
01458B Anatolian hieroglyph a350
01458C Anatolian hieroglyph a351
01458D Anatolian hieroglyph a352
01458E Anatolian hieroglyph a353
01458F Anatolian hieroglyph a354
014590 Anatolian hieroglyph a355
014591 Anatolian hieroglyph a356
014592 Anatolian hieroglyph a357
014593 Anatolian hieroglyph a358
014594 Anatolian hieroglyph a359
014595 Anatolian hieroglyph a359a
014596 Anatolian hieroglyph a360
014597 Anatolian hieroglyph a361
014598 Anatolian hieroglyph a362
014599 Anatolian hieroglyph a363
01459A Anatolian hieroglyph a364
01459B Anatolian hieroglyph a364a
01459C Anatolian hieroglyph a365
01459D Anatolian hieroglyph a366
01459E Anatolian hieroglyph a367
01459F Anatolian hieroglyph a368
0145A0 Anatolian hieroglyph a368a
0145A1 Anatolian hieroglyph a369
0145A2 Anatolian hieroglyph a370
0145A3 Anatolian hieroglyph a371
0145A4 Anatolian hieroglyph a371a
0145A5 Anatolian hieroglyph a372
0145A6 Anatolian hieroglyph a373
0145A7 Anatolian hieroglyph a374
0145A8 Anatolian hieroglyph a375
0145A9 Anatolian hieroglyph a376
0145AA Anatolian hieroglyph a377
0145AB Anatolian hieroglyph a378
0145AC Anatolian hieroglyph a379
0145AD Anatolian hieroglyph a380
0145AE Anatolian hieroglyph a381
0145AF Anatolian hieroglyph a381a
0145B0 Anatolian hieroglyph a382
0145B1 Anatolian hieroglyph a383 ra or ri
0145B2 Anatolian hieroglyph a383a
0145B3 Anatolian hieroglyph a384
0145B4 Anatolian hieroglyph a385
0145B5 Anatolian hieroglyph a386
0145B6 Anatolian hieroglyph a386a
0145B7 Anatolian hieroglyph a387
0145B8 Anatolian hieroglyph a388
0145B9 Anatolian hieroglyph a389
0145BA Anatolian hieroglyph a390
0145BB Anatolian hieroglyph a391
0145BC Anatolian hieroglyph a392
0145BD Anatolian hieroglyph a393 eight
0145BE Anatolian hieroglyph a394
0145BF Anatolian hieroglyph a395
0145C0 Anatolian hieroglyph a396
0145C1 Anatolian hieroglyph a397
0145C2 Anatolian hieroglyph a398
0145C3 Anatolian hieroglyph a399
0145C4 Anatolian hieroglyph a400
0145C5 Anatolian hieroglyph a401
0145C6 Anatolian hieroglyph a402
0145C7 Anatolian hieroglyph a403
0145C8 Anatolian hieroglyph a404
0145C9 Anatolian hieroglyph a405
0145CA Anatolian hieroglyph a406
0145CB Anatolian hieroglyph a407
0145CC Anatolian hieroglyph a408
0145CD Anatolian hieroglyph a409
0145CE Anatolian hieroglyph a410 begin logogram mark
0145CF Anatolian hieroglyph a410a end logogram mark
0145D0 Anatolian hieroglyph a411
0145D1 Anatolian hieroglyph a412
0145D2 Anatolian hieroglyph a413
0145D3 Anatolian hieroglyph a414
0145D4 Anatolian hieroglyph a415
";

pub const NAMES_58: &'static str = "0145D5 Anatolian hieroglyph a416
0145D6 Anatolian hieroglyph a417
0145D7 Anatolian hieroglyph a418
0145D8 Anatolian hieroglyph a419
0145D9 Anatolian hieroglyph a420
0145DA Anatolian hieroglyph a421
0145DB Anatolian hieroglyph a422
0145DC Anatolian hieroglyph a423
0145DD Anatolian hieroglyph a424
0145DE Anatolian hieroglyph a425
0145DF Anatolian hieroglyph a426
0145E0 Anatolian hieroglyph a427
0145E1 Anatolian hieroglyph a428
0145E2 Anatolian hieroglyph a429
0145E3 Anatolian hieroglyph a430
0145E4 Anatolian hieroglyph a431
0145E5 Anatolian hieroglyph a432
0145E6 Anatolian hieroglyph a433
0145E7 Anatolian hieroglyph a434
0145E8 Anatolian hieroglyph a435
0145E9 Anatolian hieroglyph a436
0145EA Anatolian hieroglyph a437
0145EB Anatolian hieroglyph a438
0145EC Anatolian hieroglyph a439
0145ED Anatolian hieroglyph a440
0145EE Anatolian hieroglyph a441
0145EF Anatolian hieroglyph a442
0145F0 Anatolian hieroglyph a443
0145F1 Anatolian hieroglyph a444
0145F2 Anatolian hieroglyph a445
0145F3 Anatolian hieroglyph a446
0145F4 Anatolian hieroglyph a447
0145F5 Anatolian hieroglyph a448
0145F6 Anatolian hieroglyph a449
0145F7 Anatolian hieroglyph a450
0145F8 Anatolian hieroglyph a450a
0145F9 Anatolian hieroglyph a451
0145FA Anatolian hieroglyph a452
0145FB Anatolian hieroglyph a453
0145FC Anatolian hieroglyph a454
0145FD Anatolian hieroglyph a455
0145FE Anatolian hieroglyph a456
0145FF Anatolian hieroglyph a457
014600 Anatolian hieroglyph a457a
014601 Anatolian hieroglyph a458
014602 Anatolian hieroglyph a459
014603 Anatolian hieroglyph a460
014604 Anatolian hieroglyph a461
014605 Anatolian hieroglyph a462
014606 Anatolian hieroglyph a463
014607 Anatolian hieroglyph a464
014608 Anatolian hieroglyph a465
014609 Anatolian hieroglyph a466
01460A Anatolian hieroglyph a467
01460B Anatolian hieroglyph a468
01460C Anatolian hieroglyph a469
01460D Anatolian hieroglyph a470
01460E Anatolian hieroglyph a471
01460F Anatolian hieroglyph a472
014610 Anatolian hieroglyph a473
014611 Anatolian hieroglyph a474
014612 Anatolian hieroglyph a475
014613 Anatolian hieroglyph a476
014614 Anatolian hieroglyph a477
014615 Anatolian hieroglyph a478
014616 Anatolian hieroglyph a479
014617 Anatolian hieroglyph a480
014618 Anatolian hieroglyph a481
014619 Anatolian hieroglyph a482
01461A Anatolian hieroglyph a483
01461B Anatolian hieroglyph a484
01461C Anatolian hieroglyph a485
01461D Anatolian hieroglyph a486
01461E Anatolian hieroglyph a487
01461F Anatolian hieroglyph a488
014620 Anatolian hieroglyph a489
014621 Anatolian hieroglyph a490
014622 Anatolian hieroglyph a491
014623 Anatolian hieroglyph a492
014624 Anatolian hieroglyph a493
014625 Anatolian hieroglyph a494
014626 Anatolian hieroglyph a495
014627 Anatolian hieroglyph a496
014628 Anatolian hieroglyph a497
014629 Anatolian hieroglyph a501
01462A Anatolian hieroglyph a502
01462B Anatolian hieroglyph a503
01462C Anatolian hieroglyph a504
01462D Anatolian hieroglyph a505
01462E Anatolian hieroglyph a506
01462F Anatolian hieroglyph a507
014630 Anatolian hieroglyph a508
014631 Anatolian hieroglyph a509
014632 Anatolian hieroglyph a510
014633 Anatolian hieroglyph a511
014634 Anatolian hieroglyph a512
014635 Anatolian hieroglyph a513
014636 Anatolian hieroglyph a514
014637 Anatolian hieroglyph a515
014638 Anatolian hieroglyph a516
014639 Anatolian hieroglyph a517
01463A Anatolian hieroglyph a518
01463B Anatolian hieroglyph a519
01463C Anatolian hieroglyph a520
01463D Anatolian hieroglyph a521
01463E Anatolian hieroglyph a522
01463F Anatolian hieroglyph a523
014640 Anatolian hieroglyph a524
014641 Anatolian hieroglyph a525
014642 Anatolian hieroglyph a526
014643 Anatolian hieroglyph a527
014644 Anatolian hieroglyph a528
014645 Anatolian hieroglyph a529
014646 Anatolian hieroglyph a530
016800 Bamum letter phase-a ngkue mfon
016801 Bamum letter phase-a gbiee fon
016802 Bamum letter phase-a pon mfon pipaemgbiee
016803 Bamum letter phase-a pon mfon pipaemba
016804 Bamum letter phase-a naa mfon
016805 Bamum letter phase-a shuenshuet
016806 Bamum letter phase-a tita mfon
016807 Bamum letter phase-a nza mfon
016808 Bamum letter phase-a shinda pa nji
016809 Bamum letter phase-a pon pa nji pipaemgbiee
01680A Bamum letter phase-a pon pa nji pipaemba
01680B Bamum letter phase-a maembgbiee
01680C Bamum letter phase-a tu maemba
01680D Bamum letter phase-a ngangu
01680E Bamum letter phase-a maemveux
01680F Bamum letter phase-a mansuae
016810 Bamum letter phase-a mveuaengam
016811 Bamum letter phase-a seunyam
016812 Bamum letter phase-a ntoqpen
016813 Bamum letter phase-a keukeutnda
016814 Bamum letter phase-a nkindi
016815 Bamum letter phase-a suu
016816 Bamum letter phase-a ngkuenzeum
016817 Bamum letter phase-a lapaq
016818 Bamum letter phase-a let kut
016819 Bamum letter phase-a ntap mfaa
01681A Bamum letter phase-a maekeup
01681B Bamum letter phase-a pashae
01681C Bamum letter phase-a gheuaerae
01681D Bamum letter phase-a pamshae
01681E Bamum letter phase-a mon nggeuaet
01681F Bamum letter phase-a nzun meut
016820 Bamum letter phase-a u yuq nae
016821 Bamum letter phase-a gheuaegheuae
016822 Bamum letter phase-a ntap ntaa
016823 Bamum letter phase-a sisa
016824 Bamum letter phase-a mgbasa
016825 Bamum letter phase-a meunjomndeuq
016826 Bamum letter phase-a moompuq
016827 Bamum letter phase-a kafa
016828 Bamum letter phase-a pa leeraewa
016829 Bamum letter phase-a nda leeraewa
01682A Bamum letter phase-a pet
01682B Bamum letter phase-a maemkpen
01682C Bamum letter phase-a nika
01682D Bamum letter phase-a pup
01682E Bamum letter phase-a tuaep
01682F Bamum letter phase-a luaep
016830 Bamum letter phase-a sonjam
016831 Bamum letter phase-a teuteuwen
016832 Bamum letter phase-a maenyi
016833 Bamum letter phase-a ket
016834 Bamum letter phase-a ndaanggeuaet
016835 Bamum letter phase-a kuoq
016836 Bamum letter phase-a moomeut
016837 Bamum letter phase-a shum
016838 Bamum letter phase-a lommae
016839 Bamum letter phase-a firi
01683A Bamum letter phase-a rom
01683B Bamum letter phase-a kpoq
01683C Bamum letter phase-a soq
01683D Bamum letter phase-a map pieet
01683E Bamum letter phase-a shirae
01683F Bamum letter phase-a ntap
016840 Bamum letter phase-a shoq nshut yum
016841 Bamum letter phase-a nyit mongkeuaeq
016842 Bamum letter phase-a paarae
016843 Bamum letter phase-a nkaarae
016844 Bamum letter phase-a unknown
016845 Bamum letter phase-a nggen
016846 Bamum letter phase-a maesi
016847 Bamum letter phase-a njam
016848 Bamum letter phase-a mbanyi
016849 Bamum letter phase-a nyet
01684A Bamum letter phase-a teuaen
01684B Bamum letter phase-a sot
01684C Bamum letter phase-a paam
01684D Bamum letter phase-a nshiee
01684E Bamum letter phase-a maem
01684F Bamum letter phase-a nyi
016850 Bamum letter phase-a kaq
016851 Bamum letter phase-a nsha
016852 Bamum letter phase-a vee
016853 Bamum letter phase-a lu
016854 Bamum letter phase-a nen
016855 Bamum letter phase-a naq
016856 Bamum letter phase-a mbaq
016857 Bamum letter phase-b nshuet
016858 Bamum letter phase-b tu maemgbiee
016859 Bamum letter phase-b siee
01685A Bamum letter phase-b set tu
01685B Bamum letter phase-b lom nteum
01685C Bamum letter phase-b mba maelee
01685D Bamum letter phase-b kieem
01685E Bamum letter phase-b yeurae
01685F Bamum letter phase-b mbaarae
016860 Bamum letter phase-b kam
016861 Bamum letter phase-b peeshi
016862 Bamum letter phase-b yafu leeraewa
016863 Bamum letter phase-b lam nshut nyam
016864 Bamum letter phase-b ntiee sheuoq
016865 Bamum letter phase-b ndu njaa
016866 Bamum letter phase-b gheugheuaem
016867 Bamum letter phase-b pit
016868 Bamum letter phase-b tu nsiee
016869 Bamum letter phase-b shet njaq
01686A Bamum letter phase-b sheuaeqtu
01686B Bamum letter phase-b mfon teuaeq
01686C Bamum letter phase-b mbit mbaaket
01686D Bamum letter phase-b nyi nteum
01686E Bamum letter phase-b keupuq
01686F Bamum letter phase-b gheughen
016870 Bamum letter phase-b keuyeux
016871 Bamum letter phase-b laanae
016872 Bamum letter phase-b parum
016873 Bamum letter phase-b veum
016874 Bamum letter phase-b ngkindi mvop
016875 Bamum letter phase-b nggeu mbu
016876 Bamum letter phase-b wuaet
016877 Bamum letter phase-b sakeuae
016878 Bamum letter phase-b taam
016879 Bamum letter phase-b meuq
01687A Bamum letter phase-b ngguoq
01687B Bamum letter phase-b ngguoq large
01687C Bamum letter phase-b mfiyaq
01687D Bamum letter phase-b sue
01687E Bamum letter phase-b mbeuri
01687F Bamum letter phase-b montieen
016880 Bamum letter phase-b nyaemae
016881 Bamum letter phase-b pungaam
016882 Bamum letter phase-b meut nggeet
016883 Bamum letter phase-b feux
016884 Bamum letter phase-b mbuoq
016885 Bamum letter phase-b fee
016886 Bamum letter phase-b keuaem
016887 Bamum letter phase-b ma njeuaena
016888 Bamum letter phase-b ma njuqa
016889 Bamum letter phase-b let
01688A Bamum letter phase-b nggaam
01688B Bamum letter phase-b nsen
01688C Bamum letter phase-b ma
01688D Bamum letter phase-b kiq
01688E Bamum letter phase-b ngom
01688F Bamum letter phase-c ngkue maemba
016890 Bamum letter phase-c nza
016891 Bamum letter phase-c yum
016892 Bamum letter phase-c wangkuoq
016893 Bamum letter phase-c nggen
016894 Bamum letter phase-c ndeuaeree
016895 Bamum letter phase-c ngkaq
016896 Bamum letter phase-c gharae
016897 Bamum letter phase-c mbeekeet
016898 Bamum letter phase-c gbayi
016899 Bamum letter phase-c nyir mkparaq meun
01689A Bamum letter phase-c ntu mbit
01689B Bamum letter phase-c mbeum
01689C Bamum letter phase-c pirieen
01689D Bamum letter phase-c ndombu
01689E Bamum letter phase-c mbaa cabbage-tree
01689F Bamum letter phase-c keusheuaep
0168A0 Bamum letter phase-c ghap
0168A1 Bamum letter phase-c keukaq
0168A2 Bamum letter phase-c yu muomae
0168A3 Bamum letter phase-c nzeum
0168A4 Bamum letter phase-c mbue
0168A5 Bamum letter phase-c nseuaen
0168A6 Bamum letter phase-c mbit
0168A7 Bamum letter phase-c yeuq
0168A8 Bamum letter phase-c kparaq
0168A9 Bamum letter phase-c kaa
0168AA Bamum letter phase-c seux
0168AB Bamum letter phase-c ndida
0168AC Bamum letter phase-c taashae
0168AD Bamum letter phase-c njueq
0168AE Bamum letter phase-c tita yue
0168AF Bamum letter phase-c suaet
0168B0 Bamum letter phase-c ngguaen nyam
0168B1 Bamum letter phase-c veux
0168B2 Bamum letter phase-c nansanaq
0168B3 Bamum letter phase-c ma keuaeri
0168B4 Bamum letter phase-c ntaa
0168B5 Bamum letter phase-c ngguon
0168B6 Bamum letter phase-c lap
0168B7 Bamum letter phase-c mbirieen
0168B8 Bamum letter phase-c mgbasaq
0168B9 Bamum letter phase-c nteungba
0168BA Bamum letter phase-c teuteux
0168BB Bamum letter phase-c nggum
0168BC Bamum letter phase-c fue
0168BD Bamum letter phase-c ndeut
0168BE Bamum letter phase-c nsa
0168BF Bamum letter phase-c nshaq
0168C0 Bamum letter phase-c bung
0168C1 Bamum letter phase-c veuaepen
0168C2 Bamum letter phase-c mberae
0168C3 Bamum letter phase-c ru
0168C4 Bamum letter phase-c njaem
0168C5 Bamum letter phase-c lam
0168C6 Bamum letter phase-c tituaep
0168C7 Bamum letter phase-c nsuot ngom
0168C8 Bamum letter phase-c njeeee
0168C9 Bamum letter phase-c ket
0168CA Bamum letter phase-c nggu
0168CB Bamum letter phase-c maesi
0168CC Bamum letter phase-c mbuaem
0168CD Bamum letter phase-c lu
0168CE Bamum letter phase-c kut
0168CF Bamum letter phase-c njam
0168D0 Bamum letter phase-c ngom
0168D1 Bamum letter phase-c wup
0168D2 Bamum letter phase-c nggueet
0168D3 Bamum letter phase-c nsom
0168D4 Bamum letter phase-c nten
0168D5 Bamum letter phase-c kuop nkaarae
0168D6 Bamum letter phase-c nsun
0168D7 Bamum letter phase-c ndam
0168D8 Bamum letter phase-c ma nsiee
0168D9 Bamum letter phase-c yaa
0168DA Bamum letter phase-c ndap
0168DB Bamum letter phase-c shueq
0168DC Bamum letter phase-c setfon
0168DD Bamum letter phase-c mbi
0168DE Bamum letter phase-c maemba
0168DF Bamum letter phase-c mbanyi
0168E0 Bamum letter phase-c keuseux
0168E1 Bamum letter phase-c mbeux
0168E2 Bamum letter phase-c keum
0168E3 Bamum letter phase-c mbaa picket
0168E4 Bamum letter phase-c yuwoq
0168E5 Bamum letter phase-c njeux
0168E6 Bamum letter phase-c miee
0168E7 Bamum letter phase-c muae
0168E8 Bamum letter phase-c shiq
0168E9 Bamum letter phase-c ken law
0168EA Bamum letter phase-c ken fatigue
0168EB Bamum letter phase-c ngaq
0168EC Bamum letter phase-c naq
0168ED Bamum letter phase-c liq
0168EE Bamum letter phase-c pin
0168EF Bamum letter phase-c pen
0168F0 Bamum letter phase-c tet
0168F1 Bamum letter phase-d mbuo
0168F2 Bamum letter phase-d wap
0168F3 Bamum letter phase-d nji
0168F4 Bamum letter phase-d mfon
0168F5 Bamum letter phase-d njiee
0168F6 Bamum letter phase-d liee
0168F7 Bamum letter phase-d njeut
0168F8 Bamum letter phase-d nshee
0168F9 Bamum letter phase-d nggaamae
0168FA Bamum letter phase-d nyam
0168FB Bamum letter phase-d wuaen
0168FC Bamum letter phase-d ngkun
0168FD Bamum letter phase-d shee
0168FE Bamum letter phase-d ngkap
0168FF Bamum letter phase-d keuaetmeun
016900 Bamum letter phase-d teut
016901 Bamum letter phase-d sheuae
016902 Bamum letter phase-d njap
016903 Bamum letter phase-d sue
016904 Bamum letter phase-d ket
016905 Bamum letter phase-d yaemmae
016906 Bamum letter phase-d kuom
016907 Bamum letter phase-d sap
016908 Bamum letter phase-d mfeut
016909 Bamum letter phase-d ndeux
01690A Bamum letter phase-d maleeri
01690B Bamum letter phase-d meut
01690C Bamum letter phase-d seuaeq
01690D Bamum letter phase-d yen
01690E Bamum letter phase-d njeuaem
01690F Bamum letter phase-d keuot mbuae
016910 Bamum letter phase-d ngkeuri
016911 Bamum letter phase-d tu
016912 Bamum letter phase-d ghaa
016913 Bamum letter phase-d ngkyee
016914 Bamum letter phase-d feufeuaet
016915 Bamum letter phase-d ndee
016916 Bamum letter phase-d mgbofum
016917 Bamum letter phase-d leuaep
016918 Bamum letter phase-d ndon
016919 Bamum letter phase-d moni
01691A Bamum letter phase-d mgbeun
01691B Bamum letter phase-d puut
01691C Bamum letter phase-d mgbiee
01691D Bamum letter phase-d mfo
01691E Bamum letter phase-d lum
01691F Bamum letter phase-d nsieep
016920 Bamum letter phase-d mbaa
";

pub const NAMES_59: &'static str = "016921 Bamum letter phase-d kwaet
016922 Bamum letter phase-d nyet
016923 Bamum letter phase-d teuaen
016924 Bamum letter phase-d sot
016925 Bamum letter phase-d yuwoq
016926 Bamum letter phase-d keum
016927 Bamum letter phase-d raem
016928 Bamum letter phase-d teeee
016929 Bamum letter phase-d ngkeuaeq
01692A Bamum letter phase-d mfeuae
01692B Bamum letter phase-d nsieet
01692C Bamum letter phase-d keup
01692D Bamum letter phase-d pip
01692E Bamum letter phase-d peutae
01692F Bamum letter phase-d nyue
016930 Bamum letter phase-d let
016931 Bamum letter phase-d nggaam
016932 Bamum letter phase-d mfiee
016933 Bamum letter phase-d nggwaen
016934 Bamum letter phase-d yuom
016935 Bamum letter phase-d pap
016936 Bamum letter phase-d yuop
016937 Bamum letter phase-d ndam
016938 Bamum letter phase-d nteum
016939 Bamum letter phase-d suae
01693A Bamum letter phase-d kun
01693B Bamum letter phase-d nggeux
01693C Bamum letter phase-d ngkiee
01693D Bamum letter phase-d tuot
01693E Bamum letter phase-d meun
01693F Bamum letter phase-d kuq
016940 Bamum letter phase-d nsum
016941 Bamum letter phase-d teun
016942 Bamum letter phase-d maenjet
016943 Bamum letter phase-d nggap
016944 Bamum letter phase-d leum
016945 Bamum letter phase-d ngguom
016946 Bamum letter phase-d nshut
016947 Bamum letter phase-d njueq
016948 Bamum letter phase-d gheuae
016949 Bamum letter phase-d ku
01694A Bamum letter phase-d ren old
01694B Bamum letter phase-d tae
01694C Bamum letter phase-d toq
01694D Bamum letter phase-d nyi
01694E Bamum letter phase-d rii
01694F Bamum letter phase-d leeee
016950 Bamum letter phase-d meeee
016951 Bamum letter phase-d m
016952 Bamum letter phase-d suu
016953 Bamum letter phase-d mu
016954 Bamum letter phase-d shii
016955 Bamum letter phase-d sheux
016956 Bamum letter phase-d kyee
016957 Bamum letter phase-d nu
016958 Bamum letter phase-d shu
016959 Bamum letter phase-d ntee
01695A Bamum letter phase-d pee
01695B Bamum letter phase-d ni
01695C Bamum letter phase-d shoq
01695D Bamum letter phase-d puq
01695E Bamum letter phase-d mvop
01695F Bamum letter phase-d loq
016960 Bamum letter phase-d ren much
016961 Bamum letter phase-d ti
016962 Bamum letter phase-d ntuu
016963 Bamum letter phase-d mbaa seven
016964 Bamum letter phase-d saq
016965 Bamum letter phase-d faa
016966 Bamum letter phase-e ndap
016967 Bamum letter phase-e toon
016968 Bamum letter phase-e mbeum
016969 Bamum letter phase-e lap
01696A Bamum letter phase-e vom
01696B Bamum letter phase-e loon
01696C Bamum letter phase-e paa
01696D Bamum letter phase-e som
01696E Bamum letter phase-e raq
01696F Bamum letter phase-e nshuop
016970 Bamum letter phase-e ndun
016971 Bamum letter phase-e puae
016972 Bamum letter phase-e tam
016973 Bamum letter phase-e ngka
016974 Bamum letter phase-e kpeux
016975 Bamum letter phase-e wuo
016976 Bamum letter phase-e see
016977 Bamum letter phase-e nggeuaet
016978 Bamum letter phase-e paam
016979 Bamum letter phase-e too
01697A Bamum letter phase-e kuop
01697B Bamum letter phase-e lom
01697C Bamum letter phase-e nshiee
01697D Bamum letter phase-e ngop
01697E Bamum letter phase-e maem
01697F Bamum letter phase-e ngkeux
016980 Bamum letter phase-e ngoq
016981 Bamum letter phase-e nshue
016982 Bamum letter phase-e rimgba
016983 Bamum letter phase-e njeux
016984 Bamum letter phase-e peem
016985 Bamum letter phase-e saa
016986 Bamum letter phase-e nggurae
016987 Bamum letter phase-e mgba
016988 Bamum letter phase-e gheux
016989 Bamum letter phase-e ngkeuaem
01698A Bamum letter phase-e njaemli
01698B Bamum letter phase-e map
01698C Bamum letter phase-e loot
01698D Bamum letter phase-e nggeeee
01698E Bamum letter phase-e ndiq
01698F Bamum letter phase-e taen nteum
016990 Bamum letter phase-e set
016991 Bamum letter phase-e pum
016992 Bamum letter phase-e ndaa softness
016993 Bamum letter phase-e ngguaeshae nyam
016994 Bamum letter phase-e yiee
016995 Bamum letter phase-e gheun
016996 Bamum letter phase-e tuae
016997 Bamum letter phase-e yeuae
016998 Bamum letter phase-e po
016999 Bamum letter phase-e tumae
01699A Bamum letter phase-e keuae
01699B Bamum letter phase-e suaen
01699C Bamum letter phase-e teuaeq
01699D Bamum letter phase-e veuae
01699E Bamum letter phase-e weux
01699F Bamum letter phase-e laam
0169A0 Bamum letter phase-e pu
0169A1 Bamum letter phase-e taaq
0169A2 Bamum letter phase-e ghaamae
0169A3 Bamum letter phase-e ngeureut
0169A4 Bamum letter phase-e sheuaeq
0169A5 Bamum letter phase-e mgben
0169A6 Bamum letter phase-e mbee
0169A7 Bamum letter phase-e nzaq
0169A8 Bamum letter phase-e nkom
0169A9 Bamum letter phase-e gbet
0169AA Bamum letter phase-e tum
0169AB Bamum letter phase-e kuet
0169AC Bamum letter phase-e yap
0169AD Bamum letter phase-e nyi cleaver
0169AE Bamum letter phase-e yit
0169AF Bamum letter phase-e mfeuq
0169B0 Bamum letter phase-e ndiaq
0169B1 Bamum letter phase-e pieeq
0169B2 Bamum letter phase-e yueq
0169B3 Bamum letter phase-e leuaem
0169B4 Bamum letter phase-e fue
0169B5 Bamum letter phase-e gbeux
0169B6 Bamum letter phase-e ngkup
0169B7 Bamum letter phase-e ket
0169B8 Bamum letter phase-e mae
0169B9 Bamum letter phase-e ngkaami
0169BA Bamum letter phase-e ghet
0169BB Bamum letter phase-e fa
0169BC Bamum letter phase-e ntum
0169BD Bamum letter phase-e peut
0169BE Bamum letter phase-e yeum
0169BF Bamum letter phase-e nggeuae
0169C0 Bamum letter phase-e nyi between
0169C1 Bamum letter phase-e nzuq
0169C2 Bamum letter phase-e poon
0169C3 Bamum letter phase-e miee
0169C4 Bamum letter phase-e fuet
0169C5 Bamum letter phase-e nae
0169C6 Bamum letter phase-e muae
0169C7 Bamum letter phase-e gheuae
0169C8 Bamum letter phase-e fu i
0169C9 Bamum letter phase-e mvi
0169CA Bamum letter phase-e puaq
0169CB Bamum letter phase-e ngkum
0169CC Bamum letter phase-e kut
0169CD Bamum letter phase-e piet
0169CE Bamum letter phase-e ntap
0169CF Bamum letter phase-e yeuaet
0169D0 Bamum letter phase-e nggup
0169D1 Bamum letter phase-e pa people
0169D2 Bamum letter phase-e fu call
0169D3 Bamum letter phase-e fom
0169D4 Bamum letter phase-e njee
0169D5 Bamum letter phase-e a
0169D6 Bamum letter phase-e toq
0169D7 Bamum letter phase-e o
0169D8 Bamum letter phase-e i
0169D9 Bamum letter phase-e laq
0169DA Bamum letter phase-e pa plural
0169DB Bamum letter phase-e taa
0169DC Bamum letter phase-e taq
0169DD Bamum letter phase-e ndaa my house
0169DE Bamum letter phase-e shiq
0169DF Bamum letter phase-e yeux
0169E0 Bamum letter phase-e nguae
0169E1 Bamum letter phase-e yuaen
0169E2 Bamum letter phase-e yoq swimming
0169E3 Bamum letter phase-e yoq cover
0169E4 Bamum letter phase-e yuq
0169E5 Bamum letter phase-e yun
0169E6 Bamum letter phase-e keux
0169E7 Bamum letter phase-e peux
0169E8 Bamum letter phase-e njee epoch
0169E9 Bamum letter phase-e pue
0169EA Bamum letter phase-e wue
0169EB Bamum letter phase-e fee
0169EC Bamum letter phase-e vee
0169ED Bamum letter phase-e lu
0169EE Bamum letter phase-e mi
0169EF Bamum letter phase-e reux
0169F0 Bamum letter phase-e rae
0169F1 Bamum letter phase-e nguaet
0169F2 Bamum letter phase-e nga
0169F3 Bamum letter phase-e sho
0169F4 Bamum letter phase-e shoq
0169F5 Bamum letter phase-e fu remedy
0169F6 Bamum letter phase-e na
0169F7 Bamum letter phase-e pi
0169F8 Bamum letter phase-e loq
0169F9 Bamum letter phase-e ko
0169FA Bamum letter phase-e men
0169FB Bamum letter phase-e ma
0169FC Bamum letter phase-e maq
0169FD Bamum letter phase-e teu
0169FE Bamum letter phase-e ki
0169FF Bamum letter phase-e mon
016A00 Bamum letter phase-e ten
016A01 Bamum letter phase-e faq
016A02 Bamum letter phase-e ghom
016A03 Bamum letter phase-f ka
016A04 Bamum letter phase-f u
016A05 Bamum letter phase-f ku
016A06 Bamum letter phase-f ee
016A07 Bamum letter phase-f ree
016A08 Bamum letter phase-f tae
016A09 Bamum letter phase-f nyi
016A0A Bamum letter phase-f la
016A0B Bamum letter phase-f rii
016A0C Bamum letter phase-f riee
016A0D Bamum letter phase-f meeee
016A0E Bamum letter phase-f taa
016A0F Bamum letter phase-f ndaa
016A10 Bamum letter phase-f njaem
016A11 Bamum letter phase-f m
016A12 Bamum letter phase-f suu
016A13 Bamum letter phase-f shii
016A14 Bamum letter phase-f si
016A15 Bamum letter phase-f seux
016A16 Bamum letter phase-f kyee
016A17 Bamum letter phase-f ket
016A18 Bamum letter phase-f nuae
016A19 Bamum letter phase-f nu
016A1A Bamum letter phase-f njuae
016A1B Bamum letter phase-f yoq
016A1C Bamum letter phase-f shu
016A1D Bamum letter phase-f ya
016A1E Bamum letter phase-f nsha
016A1F Bamum letter phase-f peux
016A20 Bamum letter phase-f ntee
016A21 Bamum letter phase-f wue
016A22 Bamum letter phase-f pee
016A23 Bamum letter phase-f ru
016A24 Bamum letter phase-f ni
016A25 Bamum letter phase-f reux
016A26 Bamum letter phase-f ken
016A27 Bamum letter phase-f ngkwaen
016A28 Bamum letter phase-f ngga
016A29 Bamum letter phase-f sho
016A2A Bamum letter phase-f puae
016A2B Bamum letter phase-f fom
016A2C Bamum letter phase-f wa
016A2D Bamum letter phase-f li
016A2E Bamum letter phase-f loq
016A2F Bamum letter phase-f ko
016A30 Bamum letter phase-f mben
016A31 Bamum letter phase-f ren
016A32 Bamum letter phase-f ma
016A33 Bamum letter phase-f mo
016A34 Bamum letter phase-f mbaa
016A35 Bamum letter phase-f tet
016A36 Bamum letter phase-f kpa
016A37 Bamum letter phase-f samba
016A38 Bamum letter phase-f vueq
016A40 Mro letter ta
016A41 Mro letter ngi
016A42 Mro letter yo
016A43 Mro letter mim
016A44 Mro letter ba
016A45 Mro letter da
016A46 Mro letter a
016A47 Mro letter phi
016A48 Mro letter khai
016A49 Mro letter hao
016A4A Mro letter dai
016A4B Mro letter chu
016A4C Mro letter keaae
016A4D Mro letter ol
016A4E Mro letter maem
016A4F Mro letter nin
016A50 Mro letter pa
016A51 Mro letter oo
016A52 Mro letter o
016A53 Mro letter ro
016A54 Mro letter shi
016A55 Mro letter thea
016A56 Mro letter ea
016A57 Mro letter wa
016A58 Mro letter e
016A59 Mro letter ko
016A5A Mro letter lan
016A5B Mro letter la
016A5C Mro letter hai
016A5D Mro letter ri
016A5E Mro letter tek
016A60 Mro digit zero
016A61 Mro digit one
016A62 Mro digit two
016A63 Mro digit three
016A64 Mro digit four
016A65 Mro digit five
016A66 Mro digit six
016A67 Mro digit seven
016A68 Mro digit eight
016A69 Mro digit nine
016A6E Mro danda
016A6F Mro double danda
016A70 Tangsa letter oz
016A71 Tangsa letter oc
016A72 Tangsa letter oq
016A73 Tangsa letter ox
016A74 Tangsa letter az
016A75 Tangsa letter ac
016A76 Tangsa letter aq
016A77 Tangsa letter ax
016A78 Tangsa letter vz
016A79 Tangsa letter vc
016A7A Tangsa letter vq
016A7B Tangsa letter vx
016A7C Tangsa letter ez
016A7D Tangsa letter ec
016A7E Tangsa letter eq
016A7F Tangsa letter ex
016A80 Tangsa letter iz
016A81 Tangsa letter ic
016A82 Tangsa letter iq
016A83 Tangsa letter ix
016A84 Tangsa letter uz
016A85 Tangsa letter uc
016A86 Tangsa letter uq
016A87 Tangsa letter ux
016A88 Tangsa letter awz
016A89 Tangsa letter awc
016A8A Tangsa letter awq
016A8B Tangsa letter awx
016A8C Tangsa letter uiz
016A8D Tangsa letter uic
016A8E Tangsa letter uiq
016A8F Tangsa letter uix
016A90 Tangsa letter final ng
016A91 Tangsa letter long uex
016A92 Tangsa letter short uez
016A93 Tangsa letter short awx
016A94 Tangsa letter uec
016A95 Tangsa letter uez
016A96 Tangsa letter ueq
016A97 Tangsa letter uex
016A98 Tangsa letter uiuz
016A99 Tangsa letter uiuc
016A9A Tangsa letter uiuq
016A9B Tangsa letter uiux
016A9C Tangsa letter mz
016A9D Tangsa letter mc
016A9E Tangsa letter mq
016A9F Tangsa letter mx
016AA0 Tangsa letter ka
016AA1 Tangsa letter kha
016AA2 Tangsa letter ga
016AA3 Tangsa letter nga
016AA4 Tangsa letter sa
016AA5 Tangsa letter ya
016AA6 Tangsa letter wa
016AA7 Tangsa letter pa
016AA8 Tangsa letter nya
016AA9 Tangsa letter pha
016AAA Tangsa letter ba
016AAB Tangsa letter ma
016AAC Tangsa letter na
016AAD Tangsa letter ha
016AAE Tangsa letter la
016AAF Tangsa letter hta
016AB0 Tangsa letter ta
016AB1 Tangsa letter da
016AB2 Tangsa letter ra
016AB3 Tangsa letter nha
016AB4 Tangsa letter sha
016AB5 Tangsa letter ca
016AB6 Tangsa letter tsa
016AB7 Tangsa letter gha
016AB8 Tangsa letter htta
016AB9 Tangsa letter tha
016ABA Tangsa letter xa
016ABB Tangsa letter fa
016ABC Tangsa letter dha
016ABD Tangsa letter cha
016ABE Tangsa letter za
016AC0 Tangsa digit zero
016AC1 Tangsa digit one
016AC2 Tangsa digit two
016AC3 Tangsa digit three
016AC4 Tangsa digit four
016AC5 Tangsa digit five
016AC6 Tangsa digit six
016AC7 Tangsa digit seven
016AC8 Tangsa digit eight
016AC9 Tangsa digit nine
016AD0 Bassa vah letter enni
016AD1 Bassa vah letter ka
016AD2 Bassa vah letter se
016AD3 Bassa vah letter fa
016AD4 Bassa vah letter mbe
016AD5 Bassa vah letter yie
016AD6 Bassa vah letter gah
016AD7 Bassa vah letter dhii
016AD8 Bassa vah letter kpah
016AD9 Bassa vah letter jo
016ADA Bassa vah letter hwah
016ADB Bassa vah letter wa
016ADC Bassa vah letter zo
016ADD Bassa vah letter gbu
016ADE Bassa vah letter do
016ADF Bassa vah letter ce
016AE0 Bassa vah letter uwu
016AE1 Bassa vah letter to
016AE2 Bassa vah letter ba
016AE3 Bassa vah letter vu
016AE4 Bassa vah letter yein
016AE5 Bassa vah letter pa
016AE6 Bassa vah letter wadda
016AE7 Bassa vah letter a
016AE8 Bassa vah letter o
016AE9 Bassa vah letter oo
016AEA Bassa vah letter u
016AEB Bassa vah letter ee
016AEC Bassa vah letter e
016AED Bassa vah letter i
016AF0 Bassa vah combining high tone
016AF1 Bassa vah combining low tone
016AF2 Bassa vah combining mid tone
016AF3 Bassa vah combining low-mid tone
016AF4 Bassa vah combining high-low tone
016AF5 Bassa vah full stop
016B00 Pahawh hmong vowel keeb
016B01 Pahawh hmong vowel keev
016B02 Pahawh hmong vowel kib
016B03 Pahawh hmong vowel kiv
016B04 Pahawh hmong vowel kaub
016B05 Pahawh hmong vowel kauv
016B06 Pahawh hmong vowel kub
016B07 Pahawh hmong vowel kuv
016B08 Pahawh hmong vowel keb
016B09 Pahawh hmong vowel kev
016B0A Pahawh hmong vowel kaib
016B0B Pahawh hmong vowel kaiv
016B0C Pahawh hmong vowel koob
016B0D Pahawh hmong vowel koov
016B0E Pahawh hmong vowel kawb
016B0F Pahawh hmong vowel kawv
016B10 Pahawh hmong vowel kuab
";

pub const NAMES_60: &'static str = "016B11 Pahawh hmong vowel kuav
016B12 Pahawh hmong vowel kob
016B13 Pahawh hmong vowel kov
016B14 Pahawh hmong vowel kiab
016B15 Pahawh hmong vowel kiav
016B16 Pahawh hmong vowel kab
016B17 Pahawh hmong vowel kav
016B18 Pahawh hmong vowel kwb
016B19 Pahawh hmong vowel kwv
016B1A Pahawh hmong vowel kaab
016B1B Pahawh hmong vowel kaav
016B1C Pahawh hmong consonant vau
016B1D Pahawh hmong consonant ntsau
016B1E Pahawh hmong consonant lau
016B1F Pahawh hmong consonant hau
016B20 Pahawh hmong consonant nlau
016B21 Pahawh hmong consonant rau
016B22 Pahawh hmong consonant nkau
016B23 Pahawh hmong consonant qhau
016B24 Pahawh hmong consonant yau
016B25 Pahawh hmong consonant hlau
016B26 Pahawh hmong consonant mau
016B27 Pahawh hmong consonant chau
016B28 Pahawh hmong consonant nchau
016B29 Pahawh hmong consonant hnau
016B2A Pahawh hmong consonant plhau
016B2B Pahawh hmong consonant nthau
016B2C Pahawh hmong consonant nau
016B2D Pahawh hmong consonant au
016B2E Pahawh hmong consonant xau
016B2F Pahawh hmong consonant cau
016B30 Pahawh hmong mark cim tub
016B31 Pahawh hmong mark cim so
016B32 Pahawh hmong mark cim kes
016B33 Pahawh hmong mark cim khav
016B34 Pahawh hmong mark cim suam
016B35 Pahawh hmong mark cim hom
016B36 Pahawh hmong mark cim taum
016B37 Pahawh hmong sign vos thom
016B38 Pahawh hmong sign vos tshab ceeb
016B39 Pahawh hmong sign cim cheem
016B3A Pahawh hmong sign vos thiab
016B3B Pahawh hmong sign vos feem
016B3C Pahawh hmong sign xyeem ntxiv
016B3D Pahawh hmong sign xyeem rho
016B3E Pahawh hmong sign xyeem tov
016B3F Pahawh hmong sign xyeem faib
016B40 Pahawh hmong sign vos seev
016B41 Pahawh hmong sign meej suab
016B42 Pahawh hmong sign vos nrua
016B43 Pahawh hmong sign ib yam
016B44 Pahawh hmong sign xaus
016B45 Pahawh hmong sign cim tsov rog
016B50 Pahawh hmong digit zero
016B51 Pahawh hmong digit one
016B52 Pahawh hmong digit two
016B53 Pahawh hmong digit three
016B54 Pahawh hmong digit four
016B55 Pahawh hmong digit five
016B56 Pahawh hmong digit six
016B57 Pahawh hmong digit seven
016B58 Pahawh hmong digit eight
016B59 Pahawh hmong digit nine
016B5B Pahawh hmong number tens
016B5C Pahawh hmong number hundreds
016B5D Pahawh hmong number ten thousands
016B5E Pahawh hmong number millions
016B5F Pahawh hmong number hundred millions
016B60 Pahawh hmong number ten billions
016B61 Pahawh hmong number trillions
016B63 Pahawh hmong sign vos lub
016B64 Pahawh hmong sign xyoo
016B65 Pahawh hmong sign hli
016B66 Pahawh hmong sign third-stage hli
016B67 Pahawh hmong sign zwj thaj
016B68 Pahawh hmong sign hnub
016B69 Pahawh hmong sign nqig
016B6A Pahawh hmong sign xiab
016B6B Pahawh hmong sign ntuj
016B6C Pahawh hmong sign av
016B6D Pahawh hmong sign txheej ceev
016B6E Pahawh hmong sign meej tseeb
016B6F Pahawh hmong sign tau
016B70 Pahawh hmong sign los
016B71 Pahawh hmong sign mus
016B72 Pahawh hmong sign cim hais lus ntog ntog
016B73 Pahawh hmong sign cim cuam tshooj
016B74 Pahawh hmong sign cim txwv
016B75 Pahawh hmong sign cim txwv chwv
016B76 Pahawh hmong sign cim pub dawb
016B77 Pahawh hmong sign cim nres tos
016B7D Pahawh hmong clan sign tsheej
016B7E Pahawh hmong clan sign yeeg
016B7F Pahawh hmong clan sign lis
016B80 Pahawh hmong clan sign lauj
016B81 Pahawh hmong clan sign xyooj
016B82 Pahawh hmong clan sign koo
016B83 Pahawh hmong clan sign hawj
016B84 Pahawh hmong clan sign muas
016B85 Pahawh hmong clan sign thoj
016B86 Pahawh hmong clan sign tsab
016B87 Pahawh hmong clan sign phab
016B88 Pahawh hmong clan sign khab
016B89 Pahawh hmong clan sign ham
016B8A Pahawh hmong clan sign vaj
016B8B Pahawh hmong clan sign faj
016B8C Pahawh hmong clan sign yaj
016B8D Pahawh hmong clan sign tswb
016B8E Pahawh hmong clan sign kwm
016B8F Pahawh hmong clan sign vwj
016E40 Medefaidrin capital letter m
016E41 Medefaidrin capital letter s
016E42 Medefaidrin capital letter v
016E43 Medefaidrin capital letter w
016E44 Medefaidrin capital letter atiu
016E45 Medefaidrin capital letter z
016E46 Medefaidrin capital letter kp
016E47 Medefaidrin capital letter p
016E48 Medefaidrin capital letter t
016E49 Medefaidrin capital letter g
016E4A Medefaidrin capital letter f
016E4B Medefaidrin capital letter i
016E4C Medefaidrin capital letter k
016E4D Medefaidrin capital letter a
016E4E Medefaidrin capital letter j
016E4F Medefaidrin capital letter e
016E50 Medefaidrin capital letter b
016E51 Medefaidrin capital letter c
016E52 Medefaidrin capital letter u
016E53 Medefaidrin capital letter yu
016E54 Medefaidrin capital letter l
016E55 Medefaidrin capital letter q
016E56 Medefaidrin capital letter hp
016E57 Medefaidrin capital letter ny
016E58 Medefaidrin capital letter x
016E59 Medefaidrin capital letter d
016E5A Medefaidrin capital letter oe
016E5B Medefaidrin capital letter n
016E5C Medefaidrin capital letter r
016E5D Medefaidrin capital letter o
016E5E Medefaidrin capital letter ai
016E5F Medefaidrin capital letter y
016E60 Medefaidrin small letter m
016E61 Medefaidrin small letter s
016E62 Medefaidrin small letter v
016E63 Medefaidrin small letter w
016E64 Medefaidrin small letter atiu
016E65 Medefaidrin small letter z
016E66 Medefaidrin small letter kp
016E67 Medefaidrin small letter p
016E68 Medefaidrin small letter t
016E69 Medefaidrin small letter g
016E6A Medefaidrin small letter f
016E6B Medefaidrin small letter i
016E6C Medefaidrin small letter k
016E6D Medefaidrin small letter a
016E6E Medefaidrin small letter j
016E6F Medefaidrin small letter e
016E70 Medefaidrin small letter b
016E71 Medefaidrin small letter c
016E72 Medefaidrin small letter u
016E73 Medefaidrin small letter yu
016E74 Medefaidrin small letter l
016E75 Medefaidrin small letter q
016E76 Medefaidrin small letter hp
016E77 Medefaidrin small letter ny
016E78 Medefaidrin small letter x
016E79 Medefaidrin small letter d
016E7A Medefaidrin small letter oe
016E7B Medefaidrin small letter n
016E7C Medefaidrin small letter r
016E7D Medefaidrin small letter o
016E7E Medefaidrin small letter ai
016E7F Medefaidrin small letter y
016E80 Medefaidrin digit zero
016E81 Medefaidrin digit one
016E82 Medefaidrin digit two
016E83 Medefaidrin digit three
016E84 Medefaidrin digit four
016E85 Medefaidrin digit five
016E86 Medefaidrin digit six
016E87 Medefaidrin digit seven
016E88 Medefaidrin digit eight
016E89 Medefaidrin digit nine
016E8A Medefaidrin number ten
016E8B Medefaidrin number eleven
016E8C Medefaidrin number twelve
016E8D Medefaidrin number thirteen
016E8E Medefaidrin number fourteen
016E8F Medefaidrin number fifteen
016E90 Medefaidrin number sixteen
016E91 Medefaidrin number seventeen
016E92 Medefaidrin number eighteen
016E93 Medefaidrin number nineteen
016E94 Medefaidrin digit one alternate form
016E95 Medefaidrin digit two alternate form
016E96 Medefaidrin digit three alternate form
016E97 Medefaidrin comma
016E98 Medefaidrin full stop
016E99 Medefaidrin symbol aiva
016E9A Medefaidrin exclamation oh
016F00 Miao letter pa
016F01 Miao letter ba
016F02 Miao letter yi pa
016F03 Miao letter pla
016F04 Miao letter ma
016F05 Miao letter mha
016F06 Miao letter archaic ma
016F07 Miao letter fa
016F08 Miao letter va
016F09 Miao letter vfa
016F0A Miao letter ta
016F0B Miao letter da
016F0C Miao letter yi tta
016F0D Miao letter yi ta
016F0E Miao letter tta
016F0F Miao letter dda
016F10 Miao letter na
016F11 Miao letter nha
016F12 Miao letter yi nna
016F13 Miao letter archaic na
016F14 Miao letter nna
016F15 Miao letter nnha
016F16 Miao letter la
016F17 Miao letter lya
016F18 Miao letter lha
016F19 Miao letter lhya
016F1A Miao letter tlha
016F1B Miao letter dlha
016F1C Miao letter tlhya
016F1D Miao letter dlhya
016F1E Miao letter ka
016F1F Miao letter ga
016F20 Miao letter yi ka
016F21 Miao letter qa
016F22 Miao letter qga
016F23 Miao letter nga
016F24 Miao letter ngha
016F25 Miao letter archaic nga
016F26 Miao letter ha
016F27 Miao letter xa
016F28 Miao letter gha
016F29 Miao letter ghha
016F2A Miao letter tssa
016F2B Miao letter dzza
016F2C Miao letter nya
016F2D Miao letter nyha
016F2E Miao letter tsha
016F2F Miao letter dzha
016F30 Miao letter yi tsha
016F31 Miao letter yi dzha
016F32 Miao letter reformed tsha
016F33 Miao letter sha
016F34 Miao letter ssa
016F35 Miao letter zha
016F36 Miao letter zsha
016F37 Miao letter tsa
016F38 Miao letter dza
016F39 Miao letter yi tsa
016F3A Miao letter sa
016F3B Miao letter za
016F3C Miao letter zsa
016F3D Miao letter zza
016F3E Miao letter zzsa
016F3F Miao letter archaic zza
016F40 Miao letter zzya
016F41 Miao letter zzsya
016F42 Miao letter wa
016F43 Miao letter ah
016F44 Miao letter hha
016F45 Miao letter bri
016F46 Miao letter syi
016F47 Miao letter dzyi
016F48 Miao letter te
016F49 Miao letter tse
016F4A Miao letter rte
016F4F Miao sign consonant modifier bar
016F50 Miao letter nasalization
016F51 Miao sign aspiration
016F52 Miao sign reformed voicing
016F53 Miao sign reformed aspiration
016F54 Miao vowel sign a
016F55 Miao vowel sign aa
016F56 Miao vowel sign ahh
016F57 Miao vowel sign an
016F58 Miao vowel sign ang
016F59 Miao vowel sign o
016F5A Miao vowel sign oo
016F5B Miao vowel sign wo
016F5C Miao vowel sign w
016F5D Miao vowel sign e
016F5E Miao vowel sign en
016F5F Miao vowel sign eng
016F60 Miao vowel sign oey
016F61 Miao vowel sign i
016F62 Miao vowel sign ia
016F63 Miao vowel sign ian
016F64 Miao vowel sign iang
016F65 Miao vowel sign io
016F66 Miao vowel sign ie
016F67 Miao vowel sign ii
016F68 Miao vowel sign iu
016F69 Miao vowel sign ing
016F6A Miao vowel sign u
016F6B Miao vowel sign ua
016F6C Miao vowel sign uan
016F6D Miao vowel sign uang
016F6E Miao vowel sign uu
016F6F Miao vowel sign uei
016F70 Miao vowel sign ung
016F71 Miao vowel sign y
016F72 Miao vowel sign yi
016F73 Miao vowel sign ae
016F74 Miao vowel sign aee
016F75 Miao vowel sign err
016F76 Miao vowel sign rounded err
016F77 Miao vowel sign er
016F78 Miao vowel sign rounded er
016F79 Miao vowel sign ai
016F7A Miao vowel sign ei
016F7B Miao vowel sign au
016F7C Miao vowel sign ou
016F7D Miao vowel sign n
016F7E Miao vowel sign ng
016F7F Miao vowel sign uog
016F80 Miao vowel sign yui
016F81 Miao vowel sign og
016F82 Miao vowel sign oer
016F83 Miao vowel sign vw
016F84 Miao vowel sign ig
016F85 Miao vowel sign ea
016F86 Miao vowel sign iong
016F87 Miao vowel sign ui
016F8F Miao tone right
016F90 Miao tone top right
016F91 Miao tone above
016F92 Miao tone below
016F93 Miao letter tone-2
016F94 Miao letter tone-3
016F95 Miao letter tone-4
016F96 Miao letter tone-5
016F97 Miao letter tone-6
016F98 Miao letter tone-7
016F99 Miao letter tone-8
016F9A Miao letter reformed tone-1
016F9B Miao letter reformed tone-2
016F9C Miao letter reformed tone-4
016F9D Miao letter reformed tone-5
016F9E Miao letter reformed tone-6
016F9F Miao letter reformed tone-8
016FE0 Tangut iteration mark
016FE1 Nushu iteration mark
016FE2 Old chinese hook mark
016FE3 Old chinese iteration mark
016FE4 Khitan small script filler
016FF0 Vietnamese alternate reading mark ca
016FF1 Vietnamese alternate reading mark nhay
018800 Tangut component-001
018801 Tangut component-002
018802 Tangut component-003
018803 Tangut component-004
018804 Tangut component-005
018805 Tangut component-006
018806 Tangut component-007
018807 Tangut component-008
018808 Tangut component-009
018809 Tangut component-010
01880A Tangut component-011
01880B Tangut component-012
01880C Tangut component-013
01880D Tangut component-014
01880E Tangut component-015
01880F Tangut component-016
018810 Tangut component-017
018811 Tangut component-018
018812 Tangut component-019
018813 Tangut component-020
018814 Tangut component-021
018815 Tangut component-022
018816 Tangut component-023
018817 Tangut component-024
018818 Tangut component-025
018819 Tangut component-026
01881A Tangut component-027
01881B Tangut component-028
01881C Tangut component-029
01881D Tangut component-030
01881E Tangut component-031
01881F Tangut component-032
018820 Tangut component-033
018821 Tangut component-034
018822 Tangut component-035
018823 Tangut component-036
018824 Tangut component-037
018825 Tangut component-038
018826 Tangut component-039
018827 Tangut component-040
018828 Tangut component-041
018829 Tangut component-042
01882A Tangut component-043
01882B Tangut component-044
01882C Tangut component-045
01882D Tangut component-046
01882E Tangut component-047
01882F Tangut component-048
018830 Tangut component-049
018831 Tangut component-050
018832 Tangut component-051
018833 Tangut component-052
018834 Tangut component-053
018835 Tangut component-054
018836 Tangut component-055
018837 Tangut component-056
018838 Tangut component-057
018839 Tangut component-058
01883A Tangut component-059
01883B Tangut component-060
01883C Tangut component-061
01883D Tangut component-062
01883E Tangut component-063
01883F Tangut component-064
018840 Tangut component-065
018841 Tangut component-066
018842 Tangut component-067
018843 Tangut component-068
018844 Tangut component-069
018845 Tangut component-070
018846 Tangut component-071
018847 Tangut component-072
018848 Tangut component-073
018849 Tangut component-074
01884A Tangut component-075
01884B Tangut component-076
01884C Tangut component-077
01884D Tangut component-078
01884E Tangut component-079
01884F Tangut component-080
018850 Tangut component-081
018851 Tangut component-082
018852 Tangut component-083
018853 Tangut component-084
018854 Tangut component-085
018855 Tangut component-086
018856 Tangut component-087
018857 Tangut component-088
018858 Tangut component-089
018859 Tangut component-090
01885A Tangut component-091
01885B Tangut component-092
01885C Tangut component-093
01885D Tangut component-094
01885E Tangut component-095
01885F Tangut component-096
018860 Tangut component-097
018861 Tangut component-098
018862 Tangut component-099
018863 Tangut component-100
018864 Tangut component-101
018865 Tangut component-102
018866 Tangut component-103
018867 Tangut component-104
018868 Tangut component-105
018869 Tangut component-106
01886A Tangut component-107
01886B Tangut component-108
";

pub const NAMES_61: &'static str = "01886C Tangut component-109
01886D Tangut component-110
01886E Tangut component-111
01886F Tangut component-112
018870 Tangut component-113
018871 Tangut component-114
018872 Tangut component-115
018873 Tangut component-116
018874 Tangut component-117
018875 Tangut component-118
018876 Tangut component-119
018877 Tangut component-120
018878 Tangut component-121
018879 Tangut component-122
01887A Tangut component-123
01887B Tangut component-124
01887C Tangut component-125
01887D Tangut component-126
01887E Tangut component-127
01887F Tangut component-128
018880 Tangut component-129
018881 Tangut component-130
018882 Tangut component-131
018883 Tangut component-132
018884 Tangut component-133
018885 Tangut component-134
018886 Tangut component-135
018887 Tangut component-136
018888 Tangut component-137
018889 Tangut component-138
01888A Tangut component-139
01888B Tangut component-140
01888C Tangut component-141
01888D Tangut component-142
01888E Tangut component-143
01888F Tangut component-144
018890 Tangut component-145
018891 Tangut component-146
018892 Tangut component-147
018893 Tangut component-148
018894 Tangut component-149
018895 Tangut component-150
018896 Tangut component-151
018897 Tangut component-152
018898 Tangut component-153
018899 Tangut component-154
01889A Tangut component-155
01889B Tangut component-156
01889C Tangut component-157
01889D Tangut component-158
01889E Tangut component-159
01889F Tangut component-160
0188A0 Tangut component-161
0188A1 Tangut component-162
0188A2 Tangut component-163
0188A3 Tangut component-164
0188A4 Tangut component-165
0188A5 Tangut component-166
0188A6 Tangut component-167
0188A7 Tangut component-168
0188A8 Tangut component-169
0188A9 Tangut component-170
0188AA Tangut component-171
0188AB Tangut component-172
0188AC Tangut component-173
0188AD Tangut component-174
0188AE Tangut component-175
0188AF Tangut component-176
0188B0 Tangut component-177
0188B1 Tangut component-178
0188B2 Tangut component-179
0188B3 Tangut component-180
0188B4 Tangut component-181
0188B5 Tangut component-182
0188B6 Tangut component-183
0188B7 Tangut component-184
0188B8 Tangut component-185
0188B9 Tangut component-186
0188BA Tangut component-187
0188BB Tangut component-188
0188BC Tangut component-189
0188BD Tangut component-190
0188BE Tangut component-191
0188BF Tangut component-192
0188C0 Tangut component-193
0188C1 Tangut component-194
0188C2 Tangut component-195
0188C3 Tangut component-196
0188C4 Tangut component-197
0188C5 Tangut component-198
0188C6 Tangut component-199
0188C7 Tangut component-200
0188C8 Tangut component-201
0188C9 Tangut component-202
0188CA Tangut component-203
0188CB Tangut component-204
0188CC Tangut component-205
0188CD Tangut component-206
0188CE Tangut component-207
0188CF Tangut component-208
0188D0 Tangut component-209
0188D1 Tangut component-210
0188D2 Tangut component-211
0188D3 Tangut component-212
0188D4 Tangut component-213
0188D5 Tangut component-214
0188D6 Tangut component-215
0188D7 Tangut component-216
0188D8 Tangut component-217
0188D9 Tangut component-218
0188DA Tangut component-219
0188DB Tangut component-220
0188DC Tangut component-221
0188DD Tangut component-222
0188DE Tangut component-223
0188DF Tangut component-224
0188E0 Tangut component-225
0188E1 Tangut component-226
0188E2 Tangut component-227
0188E3 Tangut component-228
0188E4 Tangut component-229
0188E5 Tangut component-230
0188E6 Tangut component-231
0188E7 Tangut component-232
0188E8 Tangut component-233
0188E9 Tangut component-234
0188EA Tangut component-235
0188EB Tangut component-236
0188EC Tangut component-237
0188ED Tangut component-238
0188EE Tangut component-239
0188EF Tangut component-240
0188F0 Tangut component-241
0188F1 Tangut component-242
0188F2 Tangut component-243
0188F3 Tangut component-244
0188F4 Tangut component-245
0188F5 Tangut component-246
0188F6 Tangut component-247
0188F7 Tangut component-248
0188F8 Tangut component-249
0188F9 Tangut component-250
0188FA Tangut component-251
0188FB Tangut component-252
0188FC Tangut component-253
0188FD Tangut component-254
0188FE Tangut component-255
0188FF Tangut component-256
018900 Tangut component-257
018901 Tangut component-258
018902 Tangut component-259
018903 Tangut component-260
018904 Tangut component-261
018905 Tangut component-262
018906 Tangut component-263
018907 Tangut component-264
018908 Tangut component-265
018909 Tangut component-266
01890A Tangut component-267
01890B Tangut component-268
01890C Tangut component-269
01890D Tangut component-270
01890E Tangut component-271
01890F Tangut component-272
018910 Tangut component-273
018911 Tangut component-274
018912 Tangut component-275
018913 Tangut component-276
018914 Tangut component-277
018915 Tangut component-278
018916 Tangut component-279
018917 Tangut component-280
018918 Tangut component-281
018919 Tangut component-282
01891A Tangut component-283
01891B Tangut component-284
01891C Tangut component-285
01891D Tangut component-286
01891E Tangut component-287
01891F Tangut component-288
018920 Tangut component-289
018921 Tangut component-290
018922 Tangut component-291
018923 Tangut component-292
018924 Tangut component-293
018925 Tangut component-294
018926 Tangut component-295
018927 Tangut component-296
018928 Tangut component-297
018929 Tangut component-298
01892A Tangut component-299
01892B Tangut component-300
01892C Tangut component-301
01892D Tangut component-302
01892E Tangut component-303
01892F Tangut component-304
018930 Tangut component-305
018931 Tangut component-306
018932 Tangut component-307
018933 Tangut component-308
018934 Tangut component-309
018935 Tangut component-310
018936 Tangut component-311
018937 Tangut component-312
018938 Tangut component-313
018939 Tangut component-314
01893A Tangut component-315
01893B Tangut component-316
01893C Tangut component-317
01893D Tangut component-318
01893E Tangut component-319
01893F Tangut component-320
018940 Tangut component-321
018941 Tangut component-322
018942 Tangut component-323
018943 Tangut component-324
018944 Tangut component-325
018945 Tangut component-326
018946 Tangut component-327
018947 Tangut component-328
018948 Tangut component-329
018949 Tangut component-330
01894A Tangut component-331
01894B Tangut component-332
01894C Tangut component-333
01894D Tangut component-334
01894E Tangut component-335
01894F Tangut component-336
018950 Tangut component-337
018951 Tangut component-338
018952 Tangut component-339
018953 Tangut component-340
018954 Tangut component-341
018955 Tangut component-342
018956 Tangut component-343
018957 Tangut component-344
018958 Tangut component-345
018959 Tangut component-346
01895A Tangut component-347
01895B Tangut component-348
01895C Tangut component-349
01895D Tangut component-350
01895E Tangut component-351
01895F Tangut component-352
018960 Tangut component-353
018961 Tangut component-354
018962 Tangut component-355
018963 Tangut component-356
018964 Tangut component-357
018965 Tangut component-358
018966 Tangut component-359
018967 Tangut component-360
018968 Tangut component-361
018969 Tangut component-362
01896A Tangut component-363
01896B Tangut component-364
01896C Tangut component-365
01896D Tangut component-366
01896E Tangut component-367
01896F Tangut component-368
018970 Tangut component-369
018971 Tangut component-370
018972 Tangut component-371
018973 Tangut component-372
018974 Tangut component-373
018975 Tangut component-374
018976 Tangut component-375
018977 Tangut component-376
018978 Tangut component-377
018979 Tangut component-378
01897A Tangut component-379
01897B Tangut component-380
01897C Tangut component-381
01897D Tangut component-382
01897E Tangut component-383
01897F Tangut component-384
018980 Tangut component-385
018981 Tangut component-386
018982 Tangut component-387
018983 Tangut component-388
018984 Tangut component-389
018985 Tangut component-390
018986 Tangut component-391
018987 Tangut component-392
018988 Tangut component-393
018989 Tangut component-394
01898A Tangut component-395
01898B Tangut component-396
01898C Tangut component-397
01898D Tangut component-398
01898E Tangut component-399
01898F Tangut component-400
018990 Tangut component-401
018991 Tangut component-402
018992 Tangut component-403
018993 Tangut component-404
018994 Tangut component-405
018995 Tangut component-406
018996 Tangut component-407
018997 Tangut component-408
018998 Tangut component-409
018999 Tangut component-410
01899A Tangut component-411
01899B Tangut component-412
01899C Tangut component-413
01899D Tangut component-414
01899E Tangut component-415
01899F Tangut component-416
0189A0 Tangut component-417
0189A1 Tangut component-418
0189A2 Tangut component-419
0189A3 Tangut component-420
0189A4 Tangut component-421
0189A5 Tangut component-422
0189A6 Tangut component-423
0189A7 Tangut component-424
0189A8 Tangut component-425
0189A9 Tangut component-426
0189AA Tangut component-427
0189AB Tangut component-428
0189AC Tangut component-429
0189AD Tangut component-430
0189AE Tangut component-431
0189AF Tangut component-432
0189B0 Tangut component-433
0189B1 Tangut component-434
0189B2 Tangut component-435
0189B3 Tangut component-436
0189B4 Tangut component-437
0189B5 Tangut component-438
0189B6 Tangut component-439
0189B7 Tangut component-440
0189B8 Tangut component-441
0189B9 Tangut component-442
0189BA Tangut component-443
0189BB Tangut component-444
0189BC Tangut component-445
0189BD Tangut component-446
0189BE Tangut component-447
0189BF Tangut component-448
0189C0 Tangut component-449
0189C1 Tangut component-450
0189C2 Tangut component-451
0189C3 Tangut component-452
0189C4 Tangut component-453
0189C5 Tangut component-454
0189C6 Tangut component-455
0189C7 Tangut component-456
0189C8 Tangut component-457
0189C9 Tangut component-458
0189CA Tangut component-459
0189CB Tangut component-460
0189CC Tangut component-461
0189CD Tangut component-462
0189CE Tangut component-463
0189CF Tangut component-464
0189D0 Tangut component-465
0189D1 Tangut component-466
0189D2 Tangut component-467
0189D3 Tangut component-468
0189D4 Tangut component-469
0189D5 Tangut component-470
0189D6 Tangut component-471
0189D7 Tangut component-472
0189D8 Tangut component-473
0189D9 Tangut component-474
0189DA Tangut component-475
0189DB Tangut component-476
0189DC Tangut component-477
0189DD Tangut component-478
0189DE Tangut component-479
0189DF Tangut component-480
0189E0 Tangut component-481
0189E1 Tangut component-482
0189E2 Tangut component-483
0189E3 Tangut component-484
0189E4 Tangut component-485
0189E5 Tangut component-486
0189E6 Tangut component-487
0189E7 Tangut component-488
0189E8 Tangut component-489
0189E9 Tangut component-490
0189EA Tangut component-491
0189EB Tangut component-492
0189EC Tangut component-493
0189ED Tangut component-494
0189EE Tangut component-495
0189EF Tangut component-496
0189F0 Tangut component-497
0189F1 Tangut component-498
0189F2 Tangut component-499
0189F3 Tangut component-500
0189F4 Tangut component-501
0189F5 Tangut component-502
0189F6 Tangut component-503
0189F7 Tangut component-504
0189F8 Tangut component-505
0189F9 Tangut component-506
0189FA Tangut component-507
0189FB Tangut component-508
0189FC Tangut component-509
0189FD Tangut component-510
0189FE Tangut component-511
0189FF Tangut component-512
018A00 Tangut component-513
018A01 Tangut component-514
018A02 Tangut component-515
018A03 Tangut component-516
018A04 Tangut component-517
018A05 Tangut component-518
018A06 Tangut component-519
018A07 Tangut component-520
018A08 Tangut component-521
018A09 Tangut component-522
018A0A Tangut component-523
018A0B Tangut component-524
018A0C Tangut component-525
018A0D Tangut component-526
018A0E Tangut component-527
018A0F Tangut component-528
018A10 Tangut component-529
018A11 Tangut component-530
018A12 Tangut component-531
018A13 Tangut component-532
018A14 Tangut component-533
018A15 Tangut component-534
018A16 Tangut component-535
018A17 Tangut component-536
018A18 Tangut component-537
018A19 Tangut component-538
018A1A Tangut component-539
018A1B Tangut component-540
018A1C Tangut component-541
018A1D Tangut component-542
018A1E Tangut component-543
018A1F Tangut component-544
018A20 Tangut component-545
018A21 Tangut component-546
018A22 Tangut component-547
018A23 Tangut component-548
018A24 Tangut component-549
018A25 Tangut component-550
018A26 Tangut component-551
018A27 Tangut component-552
018A28 Tangut component-553
018A29 Tangut component-554
018A2A Tangut component-555
018A2B Tangut component-556
018A2C Tangut component-557
018A2D Tangut component-558
018A2E Tangut component-559
018A2F Tangut component-560
018A30 Tangut component-561
018A31 Tangut component-562
018A32 Tangut component-563
018A33 Tangut component-564
018A34 Tangut component-565
018A35 Tangut component-566
018A36 Tangut component-567
018A37 Tangut component-568
018A38 Tangut component-569
018A39 Tangut component-570
018A3A Tangut component-571
018A3B Tangut component-572
018A3C Tangut component-573
018A3D Tangut component-574
018A3E Tangut component-575
018A3F Tangut component-576
018A40 Tangut component-577
018A41 Tangut component-578
018A42 Tangut component-579
018A43 Tangut component-580
018A44 Tangut component-581
018A45 Tangut component-582
018A46 Tangut component-583
018A47 Tangut component-584
018A48 Tangut component-585
018A49 Tangut component-586
018A4A Tangut component-587
018A4B Tangut component-588
018A4C Tangut component-589
018A4D Tangut component-590
018A4E Tangut component-591
018A4F Tangut component-592
018A50 Tangut component-593
018A51 Tangut component-594
018A52 Tangut component-595
018A53 Tangut component-596
018A54 Tangut component-597
018A55 Tangut component-598
018A56 Tangut component-599
018A57 Tangut component-600
018A58 Tangut component-601
018A59 Tangut component-602
018A5A Tangut component-603
018A5B Tangut component-604
018A5C Tangut component-605
018A5D Tangut component-606
018A5E Tangut component-607
018A5F Tangut component-608
";

pub const NAMES_62: &'static str = "018A60 Tangut component-609
018A61 Tangut component-610
018A62 Tangut component-611
018A63 Tangut component-612
018A64 Tangut component-613
018A65 Tangut component-614
018A66 Tangut component-615
018A67 Tangut component-616
018A68 Tangut component-617
018A69 Tangut component-618
018A6A Tangut component-619
018A6B Tangut component-620
018A6C Tangut component-621
018A6D Tangut component-622
018A6E Tangut component-623
018A6F Tangut component-624
018A70 Tangut component-625
018A71 Tangut component-626
018A72 Tangut component-627
018A73 Tangut component-628
018A74 Tangut component-629
018A75 Tangut component-630
018A76 Tangut component-631
018A77 Tangut component-632
018A78 Tangut component-633
018A79 Tangut component-634
018A7A Tangut component-635
018A7B Tangut component-636
018A7C Tangut component-637
018A7D Tangut component-638
018A7E Tangut component-639
018A7F Tangut component-640
018A80 Tangut component-641
018A81 Tangut component-642
018A82 Tangut component-643
018A83 Tangut component-644
018A84 Tangut component-645
018A85 Tangut component-646
018A86 Tangut component-647
018A87 Tangut component-648
018A88 Tangut component-649
018A89 Tangut component-650
018A8A Tangut component-651
018A8B Tangut component-652
018A8C Tangut component-653
018A8D Tangut component-654
018A8E Tangut component-655
018A8F Tangut component-656
018A90 Tangut component-657
018A91 Tangut component-658
018A92 Tangut component-659
018A93 Tangut component-660
018A94 Tangut component-661
018A95 Tangut component-662
018A96 Tangut component-663
018A97 Tangut component-664
018A98 Tangut component-665
018A99 Tangut component-666
018A9A Tangut component-667
018A9B Tangut component-668
018A9C Tangut component-669
018A9D Tangut component-670
018A9E Tangut component-671
018A9F Tangut component-672
018AA0 Tangut component-673
018AA1 Tangut component-674
018AA2 Tangut component-675
018AA3 Tangut component-676
018AA4 Tangut component-677
018AA5 Tangut component-678
018AA6 Tangut component-679
018AA7 Tangut component-680
018AA8 Tangut component-681
018AA9 Tangut component-682
018AAA Tangut component-683
018AAB Tangut component-684
018AAC Tangut component-685
018AAD Tangut component-686
018AAE Tangut component-687
018AAF Tangut component-688
018AB0 Tangut component-689
018AB1 Tangut component-690
018AB2 Tangut component-691
018AB3 Tangut component-692
018AB4 Tangut component-693
018AB5 Tangut component-694
018AB6 Tangut component-695
018AB7 Tangut component-696
018AB8 Tangut component-697
018AB9 Tangut component-698
018ABA Tangut component-699
018ABB Tangut component-700
018ABC Tangut component-701
018ABD Tangut component-702
018ABE Tangut component-703
018ABF Tangut component-704
018AC0 Tangut component-705
018AC1 Tangut component-706
018AC2 Tangut component-707
018AC3 Tangut component-708
018AC4 Tangut component-709
018AC5 Tangut component-710
018AC6 Tangut component-711
018AC7 Tangut component-712
018AC8 Tangut component-713
018AC9 Tangut component-714
018ACA Tangut component-715
018ACB Tangut component-716
018ACC Tangut component-717
018ACD Tangut component-718
018ACE Tangut component-719
018ACF Tangut component-720
018AD0 Tangut component-721
018AD1 Tangut component-722
018AD2 Tangut component-723
018AD3 Tangut component-724
018AD4 Tangut component-725
018AD5 Tangut component-726
018AD6 Tangut component-727
018AD7 Tangut component-728
018AD8 Tangut component-729
018AD9 Tangut component-730
018ADA Tangut component-731
018ADB Tangut component-732
018ADC Tangut component-733
018ADD Tangut component-734
018ADE Tangut component-735
018ADF Tangut component-736
018AE0 Tangut component-737
018AE1 Tangut component-738
018AE2 Tangut component-739
018AE3 Tangut component-740
018AE4 Tangut component-741
018AE5 Tangut component-742
018AE6 Tangut component-743
018AE7 Tangut component-744
018AE8 Tangut component-745
018AE9 Tangut component-746
018AEA Tangut component-747
018AEB Tangut component-748
018AEC Tangut component-749
018AED Tangut component-750
018AEE Tangut component-751
018AEF Tangut component-752
018AF0 Tangut component-753
018AF1 Tangut component-754
018AF2 Tangut component-755
018AF3 Tangut component-756
018AF4 Tangut component-757
018AF5 Tangut component-758
018AF6 Tangut component-759
018AF7 Tangut component-760
018AF8 Tangut component-761
018AF9 Tangut component-762
018AFA Tangut component-763
018AFB Tangut component-764
018AFC Tangut component-765
018AFD Tangut component-766
018AFE Tangut component-767
018AFF Tangut component-768
018B00 Khitan small script character-18b00
018B01 Khitan small script character-18b01
018B02 Khitan small script character-18b02
018B03 Khitan small script character-18b03
018B04 Khitan small script character-18b04
018B05 Khitan small script character-18b05
018B06 Khitan small script character-18b06
018B07 Khitan small script character-18b07
018B08 Khitan small script character-18b08
018B09 Khitan small script character-18b09
018B0A Khitan small script character-18b0a
018B0B Khitan small script character-18b0b
018B0C Khitan small script character-18b0c
018B0D Khitan small script character-18b0d
018B0E Khitan small script character-18b0e
018B0F Khitan small script character-18b0f
018B10 Khitan small script character-18b10
018B11 Khitan small script character-18b11
018B12 Khitan small script character-18b12
018B13 Khitan small script character-18b13
018B14 Khitan small script character-18b14
018B15 Khitan small script character-18b15
018B16 Khitan small script character-18b16
018B17 Khitan small script character-18b17
018B18 Khitan small script character-18b18
018B19 Khitan small script character-18b19
018B1A Khitan small script character-18b1a
018B1B Khitan small script character-18b1b
018B1C Khitan small script character-18b1c
018B1D Khitan small script character-18b1d
018B1E Khitan small script character-18b1e
018B1F Khitan small script character-18b1f
018B20 Khitan small script character-18b20
018B21 Khitan small script character-18b21
018B22 Khitan small script character-18b22
018B23 Khitan small script character-18b23
018B24 Khitan small script character-18b24
018B25 Khitan small script character-18b25
018B26 Khitan small script character-18b26
018B27 Khitan small script character-18b27
018B28 Khitan small script character-18b28
018B29 Khitan small script character-18b29
018B2A Khitan small script character-18b2a
018B2B Khitan small script character-18b2b
018B2C Khitan small script character-18b2c
018B2D Khitan small script character-18b2d
018B2E Khitan small script character-18b2e
018B2F Khitan small script character-18b2f
018B30 Khitan small script character-18b30
018B31 Khitan small script character-18b31
018B32 Khitan small script character-18b32
018B33 Khitan small script character-18b33
018B34 Khitan small script character-18b34
018B35 Khitan small script character-18b35
018B36 Khitan small script character-18b36
018B37 Khitan small script character-18b37
018B38 Khitan small script character-18b38
018B39 Khitan small script character-18b39
018B3A Khitan small script character-18b3a
018B3B Khitan small script character-18b3b
018B3C Khitan small script character-18b3c
018B3D Khitan small script character-18b3d
018B3E Khitan small script character-18b3e
018B3F Khitan small script character-18b3f
018B40 Khitan small script character-18b40
018B41 Khitan small script character-18b41
018B42 Khitan small script character-18b42
018B43 Khitan small script character-18b43
018B44 Khitan small script character-18b44
018B45 Khitan small script character-18b45
018B46 Khitan small script character-18b46
018B47 Khitan small script character-18b47
018B48 Khitan small script character-18b48
018B49 Khitan small script character-18b49
018B4A Khitan small script character-18b4a
018B4B Khitan small script character-18b4b
018B4C Khitan small script character-18b4c
018B4D Khitan small script character-18b4d
018B4E Khitan small script character-18b4e
018B4F Khitan small script character-18b4f
018B50 Khitan small script character-18b50
018B51 Khitan small script character-18b51
018B52 Khitan small script character-18b52
018B53 Khitan small script character-18b53
018B54 Khitan small script character-18b54
018B55 Khitan small script character-18b55
018B56 Khitan small script character-18b56
018B57 Khitan small script character-18b57
018B58 Khitan small script character-18b58
018B59 Khitan small script character-18b59
018B5A Khitan small script character-18b5a
018B5B Khitan small script character-18b5b
018B5C Khitan small script character-18b5c
018B5D Khitan small script character-18b5d
018B5E Khitan small script character-18b5e
018B5F Khitan small script character-18b5f
018B60 Khitan small script character-18b60
018B61 Khitan small script character-18b61
018B62 Khitan small script character-18b62
018B63 Khitan small script character-18b63
018B64 Khitan small script character-18b64
018B65 Khitan small script character-18b65
018B66 Khitan small script character-18b66
018B67 Khitan small script character-18b67
018B68 Khitan small script character-18b68
018B69 Khitan small script character-18b69
018B6A Khitan small script character-18b6a
018B6B Khitan small script character-18b6b
018B6C Khitan small script character-18b6c
018B6D Khitan small script character-18b6d
018B6E Khitan small script character-18b6e
018B6F Khitan small script character-18b6f
018B70 Khitan small script character-18b70
018B71 Khitan small script character-18b71
018B72 Khitan small script character-18b72
018B73 Khitan small script character-18b73
018B74 Khitan small script character-18b74
018B75 Khitan small script character-18b75
018B76 Khitan small script character-18b76
018B77 Khitan small script character-18b77
018B78 Khitan small script character-18b78
018B79 Khitan small script character-18b79
018B7A Khitan small script character-18b7a
018B7B Khitan small script character-18b7b
018B7C Khitan small script character-18b7c
018B7D Khitan small script character-18b7d
018B7E Khitan small script character-18b7e
018B7F Khitan small script character-18b7f
018B80 Khitan small script character-18b80
018B81 Khitan small script character-18b81
018B82 Khitan small script character-18b82
018B83 Khitan small script character-18b83
018B84 Khitan small script character-18b84
018B85 Khitan small script character-18b85
018B86 Khitan small script character-18b86
018B87 Khitan small script character-18b87
018B88 Khitan small script character-18b88
018B89 Khitan small script character-18b89
018B8A Khitan small script character-18b8a
018B8B Khitan small script character-18b8b
018B8C Khitan small script character-18b8c
018B8D Khitan small script character-18b8d
018B8E Khitan small script character-18b8e
018B8F Khitan small script character-18b8f
018B90 Khitan small script character-18b90
018B91 Khitan small script character-18b91
018B92 Khitan small script character-18b92
018B93 Khitan small script character-18b93
018B94 Khitan small script character-18b94
018B95 Khitan small script character-18b95
018B96 Khitan small script character-18b96
018B97 Khitan small script character-18b97
018B98 Khitan small script character-18b98
018B99 Khitan small script character-18b99
018B9A Khitan small script character-18b9a
018B9B Khitan small script character-18b9b
018B9C Khitan small script character-18b9c
018B9D Khitan small script character-18b9d
018B9E Khitan small script character-18b9e
018B9F Khitan small script character-18b9f
018BA0 Khitan small script character-18ba0
018BA1 Khitan small script character-18ba1
018BA2 Khitan small script character-18ba2
018BA3 Khitan small script character-18ba3
018BA4 Khitan small script character-18ba4
018BA5 Khitan small script character-18ba5
018BA6 Khitan small script character-18ba6
018BA7 Khitan small script character-18ba7
018BA8 Khitan small script character-18ba8
018BA9 Khitan small script character-18ba9
018BAA Khitan small script character-18baa
018BAB Khitan small script character-18bab
018BAC Khitan small script character-18bac
018BAD Khitan small script character-18bad
018BAE Khitan small script character-18bae
018BAF Khitan small script character-18baf
018BB0 Khitan small script character-18bb0
018BB1 Khitan small script character-18bb1
018BB2 Khitan small script character-18bb2
018BB3 Khitan small script character-18bb3
018BB4 Khitan small script character-18bb4
018BB5 Khitan small script character-18bb5
018BB6 Khitan small script character-18bb6
018BB7 Khitan small script character-18bb7
018BB8 Khitan small script character-18bb8
018BB9 Khitan small script character-18bb9
018BBA Khitan small script character-18bba
018BBB Khitan small script character-18bbb
018BBC Khitan small script character-18bbc
018BBD Khitan small script character-18bbd
018BBE Khitan small script character-18bbe
018BBF Khitan small script character-18bbf
018BC0 Khitan small script character-18bc0
018BC1 Khitan small script character-18bc1
018BC2 Khitan small script character-18bc2
018BC3 Khitan small script character-18bc3
018BC4 Khitan small script character-18bc4
018BC5 Khitan small script character-18bc5
018BC6 Khitan small script character-18bc6
018BC7 Khitan small script character-18bc7
018BC8 Khitan small script character-18bc8
018BC9 Khitan small script character-18bc9
018BCA Khitan small script character-18bca
018BCB Khitan small script character-18bcb
018BCC Khitan small script character-18bcc
018BCD Khitan small script character-18bcd
018BCE Khitan small script character-18bce
018BCF Khitan small script character-18bcf
018BD0 Khitan small script character-18bd0
018BD1 Khitan small script character-18bd1
018BD2 Khitan small script character-18bd2
018BD3 Khitan small script character-18bd3
018BD4 Khitan small script character-18bd4
018BD5 Khitan small script character-18bd5
018BD6 Khitan small script character-18bd6
018BD7 Khitan small script character-18bd7
018BD8 Khitan small script character-18bd8
018BD9 Khitan small script character-18bd9
018BDA Khitan small script character-18bda
018BDB Khitan small script character-18bdb
018BDC Khitan small script character-18bdc
";

pub const NAMES_63: &'static str = "018BDD Khitan small script character-18bdd
018BDE Khitan small script character-18bde
018BDF Khitan small script character-18bdf
018BE0 Khitan small script character-18be0
018BE1 Khitan small script character-18be1
018BE2 Khitan small script character-18be2
018BE3 Khitan small script character-18be3
018BE4 Khitan small script character-18be4
018BE5 Khitan small script character-18be5
018BE6 Khitan small script character-18be6
018BE7 Khitan small script character-18be7
018BE8 Khitan small script character-18be8
018BE9 Khitan small script character-18be9
018BEA Khitan small script character-18bea
018BEB Khitan small script character-18beb
018BEC Khitan small script character-18bec
018BED Khitan small script character-18bed
018BEE Khitan small script character-18bee
018BEF Khitan small script character-18bef
018BF0 Khitan small script character-18bf0
018BF1 Khitan small script character-18bf1
018BF2 Khitan small script character-18bf2
018BF3 Khitan small script character-18bf3
018BF4 Khitan small script character-18bf4
018BF5 Khitan small script character-18bf5
018BF6 Khitan small script character-18bf6
018BF7 Khitan small script character-18bf7
018BF8 Khitan small script character-18bf8
018BF9 Khitan small script character-18bf9
018BFA Khitan small script character-18bfa
018BFB Khitan small script character-18bfb
018BFC Khitan small script character-18bfc
018BFD Khitan small script character-18bfd
018BFE Khitan small script character-18bfe
018BFF Khitan small script character-18bff
018C00 Khitan small script character-18c00
018C01 Khitan small script character-18c01
018C02 Khitan small script character-18c02
018C03 Khitan small script character-18c03
018C04 Khitan small script character-18c04
018C05 Khitan small script character-18c05
018C06 Khitan small script character-18c06
018C07 Khitan small script character-18c07
018C08 Khitan small script character-18c08
018C09 Khitan small script character-18c09
018C0A Khitan small script character-18c0a
018C0B Khitan small script character-18c0b
018C0C Khitan small script character-18c0c
018C0D Khitan small script character-18c0d
018C0E Khitan small script character-18c0e
018C0F Khitan small script character-18c0f
018C10 Khitan small script character-18c10
018C11 Khitan small script character-18c11
018C12 Khitan small script character-18c12
018C13 Khitan small script character-18c13
018C14 Khitan small script character-18c14
018C15 Khitan small script character-18c15
018C16 Khitan small script character-18c16
018C17 Khitan small script character-18c17
018C18 Khitan small script character-18c18
018C19 Khitan small script character-18c19
018C1A Khitan small script character-18c1a
018C1B Khitan small script character-18c1b
018C1C Khitan small script character-18c1c
018C1D Khitan small script character-18c1d
018C1E Khitan small script character-18c1e
018C1F Khitan small script character-18c1f
018C20 Khitan small script character-18c20
018C21 Khitan small script character-18c21
018C22 Khitan small script character-18c22
018C23 Khitan small script character-18c23
018C24 Khitan small script character-18c24
018C25 Khitan small script character-18c25
018C26 Khitan small script character-18c26
018C27 Khitan small script character-18c27
018C28 Khitan small script character-18c28
018C29 Khitan small script character-18c29
018C2A Khitan small script character-18c2a
018C2B Khitan small script character-18c2b
018C2C Khitan small script character-18c2c
018C2D Khitan small script character-18c2d
018C2E Khitan small script character-18c2e
018C2F Khitan small script character-18c2f
018C30 Khitan small script character-18c30
018C31 Khitan small script character-18c31
018C32 Khitan small script character-18c32
018C33 Khitan small script character-18c33
018C34 Khitan small script character-18c34
018C35 Khitan small script character-18c35
018C36 Khitan small script character-18c36
018C37 Khitan small script character-18c37
018C38 Khitan small script character-18c38
018C39 Khitan small script character-18c39
018C3A Khitan small script character-18c3a
018C3B Khitan small script character-18c3b
018C3C Khitan small script character-18c3c
018C3D Khitan small script character-18c3d
018C3E Khitan small script character-18c3e
018C3F Khitan small script character-18c3f
018C40 Khitan small script character-18c40
018C41 Khitan small script character-18c41
018C42 Khitan small script character-18c42
018C43 Khitan small script character-18c43
018C44 Khitan small script character-18c44
018C45 Khitan small script character-18c45
018C46 Khitan small script character-18c46
018C47 Khitan small script character-18c47
018C48 Khitan small script character-18c48
018C49 Khitan small script character-18c49
018C4A Khitan small script character-18c4a
018C4B Khitan small script character-18c4b
018C4C Khitan small script character-18c4c
018C4D Khitan small script character-18c4d
018C4E Khitan small script character-18c4e
018C4F Khitan small script character-18c4f
018C50 Khitan small script character-18c50
018C51 Khitan small script character-18c51
018C52 Khitan small script character-18c52
018C53 Khitan small script character-18c53
018C54 Khitan small script character-18c54
018C55 Khitan small script character-18c55
018C56 Khitan small script character-18c56
018C57 Khitan small script character-18c57
018C58 Khitan small script character-18c58
018C59 Khitan small script character-18c59
018C5A Khitan small script character-18c5a
018C5B Khitan small script character-18c5b
018C5C Khitan small script character-18c5c
018C5D Khitan small script character-18c5d
018C5E Khitan small script character-18c5e
018C5F Khitan small script character-18c5f
018C60 Khitan small script character-18c60
018C61 Khitan small script character-18c61
018C62 Khitan small script character-18c62
018C63 Khitan small script character-18c63
018C64 Khitan small script character-18c64
018C65 Khitan small script character-18c65
018C66 Khitan small script character-18c66
018C67 Khitan small script character-18c67
018C68 Khitan small script character-18c68
018C69 Khitan small script character-18c69
018C6A Khitan small script character-18c6a
018C6B Khitan small script character-18c6b
018C6C Khitan small script character-18c6c
018C6D Khitan small script character-18c6d
018C6E Khitan small script character-18c6e
018C6F Khitan small script character-18c6f
018C70 Khitan small script character-18c70
018C71 Khitan small script character-18c71
018C72 Khitan small script character-18c72
018C73 Khitan small script character-18c73
018C74 Khitan small script character-18c74
018C75 Khitan small script character-18c75
018C76 Khitan small script character-18c76
018C77 Khitan small script character-18c77
018C78 Khitan small script character-18c78
018C79 Khitan small script character-18c79
018C7A Khitan small script character-18c7a
018C7B Khitan small script character-18c7b
018C7C Khitan small script character-18c7c
018C7D Khitan small script character-18c7d
018C7E Khitan small script character-18c7e
018C7F Khitan small script character-18c7f
018C80 Khitan small script character-18c80
018C81 Khitan small script character-18c81
018C82 Khitan small script character-18c82
018C83 Khitan small script character-18c83
018C84 Khitan small script character-18c84
018C85 Khitan small script character-18c85
018C86 Khitan small script character-18c86
018C87 Khitan small script character-18c87
018C88 Khitan small script character-18c88
018C89 Khitan small script character-18c89
018C8A Khitan small script character-18c8a
018C8B Khitan small script character-18c8b
018C8C Khitan small script character-18c8c
018C8D Khitan small script character-18c8d
018C8E Khitan small script character-18c8e
018C8F Khitan small script character-18c8f
018C90 Khitan small script character-18c90
018C91 Khitan small script character-18c91
018C92 Khitan small script character-18c92
018C93 Khitan small script character-18c93
018C94 Khitan small script character-18c94
018C95 Khitan small script character-18c95
018C96 Khitan small script character-18c96
018C97 Khitan small script character-18c97
018C98 Khitan small script character-18c98
018C99 Khitan small script character-18c99
018C9A Khitan small script character-18c9a
018C9B Khitan small script character-18c9b
018C9C Khitan small script character-18c9c
018C9D Khitan small script character-18c9d
018C9E Khitan small script character-18c9e
018C9F Khitan small script character-18c9f
018CA0 Khitan small script character-18ca0
018CA1 Khitan small script character-18ca1
018CA2 Khitan small script character-18ca2
018CA3 Khitan small script character-18ca3
018CA4 Khitan small script character-18ca4
018CA5 Khitan small script character-18ca5
018CA6 Khitan small script character-18ca6
018CA7 Khitan small script character-18ca7
018CA8 Khitan small script character-18ca8
018CA9 Khitan small script character-18ca9
018CAA Khitan small script character-18caa
018CAB Khitan small script character-18cab
018CAC Khitan small script character-18cac
018CAD Khitan small script character-18cad
018CAE Khitan small script character-18cae
018CAF Khitan small script character-18caf
018CB0 Khitan small script character-18cb0
018CB1 Khitan small script character-18cb1
018CB2 Khitan small script character-18cb2
018CB3 Khitan small script character-18cb3
018CB4 Khitan small script character-18cb4
018CB5 Khitan small script character-18cb5
018CB6 Khitan small script character-18cb6
018CB7 Khitan small script character-18cb7
018CB8 Khitan small script character-18cb8
018CB9 Khitan small script character-18cb9
018CBA Khitan small script character-18cba
018CBB Khitan small script character-18cbb
018CBC Khitan small script character-18cbc
018CBD Khitan small script character-18cbd
018CBE Khitan small script character-18cbe
018CBF Khitan small script character-18cbf
018CC0 Khitan small script character-18cc0
018CC1 Khitan small script character-18cc1
018CC2 Khitan small script character-18cc2
018CC3 Khitan small script character-18cc3
018CC4 Khitan small script character-18cc4
018CC5 Khitan small script character-18cc5
018CC6 Khitan small script character-18cc6
018CC7 Khitan small script character-18cc7
018CC8 Khitan small script character-18cc8
018CC9 Khitan small script character-18cc9
018CCA Khitan small script character-18cca
018CCB Khitan small script character-18ccb
018CCC Khitan small script character-18ccc
018CCD Khitan small script character-18ccd
018CCE Khitan small script character-18cce
018CCF Khitan small script character-18ccf
018CD0 Khitan small script character-18cd0
018CD1 Khitan small script character-18cd1
018CD2 Khitan small script character-18cd2
018CD3 Khitan small script character-18cd3
018CD4 Khitan small script character-18cd4
018CD5 Khitan small script character-18cd5
01AFF0 Katakana letter minnan tone-2
01AFF1 Katakana letter minnan tone-3
01AFF2 Katakana letter minnan tone-4
01AFF3 Katakana letter minnan tone-5
01AFF5 Katakana letter minnan tone-7
01AFF6 Katakana letter minnan tone-8
01AFF7 Katakana letter minnan nasalized tone-1
01AFF8 Katakana letter minnan nasalized tone-2
01AFF9 Katakana letter minnan nasalized tone-3
01AFFA Katakana letter minnan nasalized tone-4
01AFFB Katakana letter minnan nasalized tone-5
01AFFD Katakana letter minnan nasalized tone-7
01AFFE Katakana letter minnan nasalized tone-8
01B000 Katakana letter archaic e
01B001 Hiragana letter archaic ye
01B002 Hentaigana letter a-1
01B003 Hentaigana letter a-2
01B004 Hentaigana letter a-3
01B005 Hentaigana letter a-wo
01B006 Hentaigana letter i-1
01B007 Hentaigana letter i-2
01B008 Hentaigana letter i-3
01B009 Hentaigana letter i-4
01B00A Hentaigana letter u-1
01B00B Hentaigana letter u-2
01B00C Hentaigana letter u-3
01B00D Hentaigana letter u-4
01B00E Hentaigana letter u-5
01B00F Hentaigana letter e-2
01B010 Hentaigana letter e-3
01B011 Hentaigana letter e-4
01B012 Hentaigana letter e-5
01B013 Hentaigana letter e-6
01B014 Hentaigana letter o-1
01B015 Hentaigana letter o-2
01B016 Hentaigana letter o-3
01B017 Hentaigana letter ka-1
01B018 Hentaigana letter ka-2
01B019 Hentaigana letter ka-3
01B01A Hentaigana letter ka-4
01B01B Hentaigana letter ka-5
01B01C Hentaigana letter ka-6
01B01D Hentaigana letter ka-7
01B01E Hentaigana letter ka-8
01B01F Hentaigana letter ka-9
01B020 Hentaigana letter ka-10
01B021 Hentaigana letter ka-11
01B022 Hentaigana letter ka-ke
01B023 Hentaigana letter ki-1
01B024 Hentaigana letter ki-2
01B025 Hentaigana letter ki-3
01B026 Hentaigana letter ki-4
01B027 Hentaigana letter ki-5
01B028 Hentaigana letter ki-6
01B029 Hentaigana letter ki-7
01B02A Hentaigana letter ki-8
01B02B Hentaigana letter ku-1
01B02C Hentaigana letter ku-2
01B02D Hentaigana letter ku-3
01B02E Hentaigana letter ku-4
01B02F Hentaigana letter ku-5
01B030 Hentaigana letter ku-6
01B031 Hentaigana letter ku-7
01B032 Hentaigana letter ke-1
01B033 Hentaigana letter ke-2
01B034 Hentaigana letter ke-3
01B035 Hentaigana letter ke-4
01B036 Hentaigana letter ke-5
01B037 Hentaigana letter ke-6
01B038 Hentaigana letter ko-1
01B039 Hentaigana letter ko-2
01B03A Hentaigana letter ko-3
01B03B Hentaigana letter ko-ki
01B03C Hentaigana letter sa-1
01B03D Hentaigana letter sa-2
01B03E Hentaigana letter sa-3
01B03F Hentaigana letter sa-4
01B040 Hentaigana letter sa-5
01B041 Hentaigana letter sa-6
01B042 Hentaigana letter sa-7
01B043 Hentaigana letter sa-8
01B044 Hentaigana letter si-1
01B045 Hentaigana letter si-2
01B046 Hentaigana letter si-3
01B047 Hentaigana letter si-4
01B048 Hentaigana letter si-5
01B049 Hentaigana letter si-6
01B04A Hentaigana letter su-1
01B04B Hentaigana letter su-2
01B04C Hentaigana letter su-3
01B04D Hentaigana letter su-4
01B04E Hentaigana letter su-5
01B04F Hentaigana letter su-6
01B050 Hentaigana letter su-7
01B051 Hentaigana letter su-8
01B052 Hentaigana letter se-1
01B053 Hentaigana letter se-2
01B054 Hentaigana letter se-3
01B055 Hentaigana letter se-4
01B056 Hentaigana letter se-5
01B057 Hentaigana letter so-1
01B058 Hentaigana letter so-2
01B059 Hentaigana letter so-3
01B05A Hentaigana letter so-4
";

pub const NAMES_64: &'static str = "01B05B Hentaigana letter so-5
01B05C Hentaigana letter so-6
01B05D Hentaigana letter so-7
01B05E Hentaigana letter ta-1
01B05F Hentaigana letter ta-2
01B060 Hentaigana letter ta-3
01B061 Hentaigana letter ta-4
01B062 Hentaigana letter ti-1
01B063 Hentaigana letter ti-2
01B064 Hentaigana letter ti-3
01B065 Hentaigana letter ti-4
01B066 Hentaigana letter ti-5
01B067 Hentaigana letter ti-6
01B068 Hentaigana letter ti-7
01B069 Hentaigana letter tu-1
01B06A Hentaigana letter tu-2
01B06B Hentaigana letter tu-3
01B06C Hentaigana letter tu-4
01B06D Hentaigana letter tu-to
01B06E Hentaigana letter te-1
01B06F Hentaigana letter te-2
01B070 Hentaigana letter te-3
01B071 Hentaigana letter te-4
01B072 Hentaigana letter te-5
01B073 Hentaigana letter te-6
01B074 Hentaigana letter te-7
01B075 Hentaigana letter te-8
01B076 Hentaigana letter te-9
01B077 Hentaigana letter to-1
01B078 Hentaigana letter to-2
01B079 Hentaigana letter to-3
01B07A Hentaigana letter to-4
01B07B Hentaigana letter to-5
01B07C Hentaigana letter to-6
01B07D Hentaigana letter to-ra
01B07E Hentaigana letter na-1
01B07F Hentaigana letter na-2
01B080 Hentaigana letter na-3
01B081 Hentaigana letter na-4
01B082 Hentaigana letter na-5
01B083 Hentaigana letter na-6
01B084 Hentaigana letter na-7
01B085 Hentaigana letter na-8
01B086 Hentaigana letter na-9
01B087 Hentaigana letter ni-1
01B088 Hentaigana letter ni-2
01B089 Hentaigana letter ni-3
01B08A Hentaigana letter ni-4
01B08B Hentaigana letter ni-5
01B08C Hentaigana letter ni-6
01B08D Hentaigana letter ni-7
01B08E Hentaigana letter ni-te
01B08F Hentaigana letter nu-1
01B090 Hentaigana letter nu-2
01B091 Hentaigana letter nu-3
01B092 Hentaigana letter ne-1
01B093 Hentaigana letter ne-2
01B094 Hentaigana letter ne-3
01B095 Hentaigana letter ne-4
01B096 Hentaigana letter ne-5
01B097 Hentaigana letter ne-6
01B098 Hentaigana letter ne-ko
01B099 Hentaigana letter no-1
01B09A Hentaigana letter no-2
01B09B Hentaigana letter no-3
01B09C Hentaigana letter no-4
01B09D Hentaigana letter no-5
01B09E Hentaigana letter ha-1
01B09F Hentaigana letter ha-2
01B0A0 Hentaigana letter ha-3
01B0A1 Hentaigana letter ha-4
01B0A2 Hentaigana letter ha-5
01B0A3 Hentaigana letter ha-6
01B0A4 Hentaigana letter ha-7
01B0A5 Hentaigana letter ha-8
01B0A6 Hentaigana letter ha-9
01B0A7 Hentaigana letter ha-10
01B0A8 Hentaigana letter ha-11
01B0A9 Hentaigana letter hi-1
01B0AA Hentaigana letter hi-2
01B0AB Hentaigana letter hi-3
01B0AC Hentaigana letter hi-4
01B0AD Hentaigana letter hi-5
01B0AE Hentaigana letter hi-6
01B0AF Hentaigana letter hi-7
01B0B0 Hentaigana letter hu-1
01B0B1 Hentaigana letter hu-2
01B0B2 Hentaigana letter hu-3
01B0B3 Hentaigana letter he-1
01B0B4 Hentaigana letter he-2
01B0B5 Hentaigana letter he-3
01B0B6 Hentaigana letter he-4
01B0B7 Hentaigana letter he-5
01B0B8 Hentaigana letter he-6
01B0B9 Hentaigana letter he-7
01B0BA Hentaigana letter ho-1
01B0BB Hentaigana letter ho-2
01B0BC Hentaigana letter ho-3
01B0BD Hentaigana letter ho-4
01B0BE Hentaigana letter ho-5
01B0BF Hentaigana letter ho-6
01B0C0 Hentaigana letter ho-7
01B0C1 Hentaigana letter ho-8
01B0C2 Hentaigana letter ma-1
01B0C3 Hentaigana letter ma-2
01B0C4 Hentaigana letter ma-3
01B0C5 Hentaigana letter ma-4
01B0C6 Hentaigana letter ma-5
01B0C7 Hentaigana letter ma-6
01B0C8 Hentaigana letter ma-7
01B0C9 Hentaigana letter mi-1
01B0CA Hentaigana letter mi-2
01B0CB Hentaigana letter mi-3
01B0CC Hentaigana letter mi-4
01B0CD Hentaigana letter mi-5
01B0CE Hentaigana letter mi-6
01B0CF Hentaigana letter mi-7
01B0D0 Hentaigana letter mu-1
01B0D1 Hentaigana letter mu-2
01B0D2 Hentaigana letter mu-3
01B0D3 Hentaigana letter mu-4
01B0D4 Hentaigana letter me-1
01B0D5 Hentaigana letter me-2
01B0D6 Hentaigana letter me-ma
01B0D7 Hentaigana letter mo-1
01B0D8 Hentaigana letter mo-2
01B0D9 Hentaigana letter mo-3
01B0DA Hentaigana letter mo-4
01B0DB Hentaigana letter mo-5
01B0DC Hentaigana letter mo-6
01B0DD Hentaigana letter ya-1
01B0DE Hentaigana letter ya-2
01B0DF Hentaigana letter ya-3
01B0E0 Hentaigana letter ya-4
01B0E1 Hentaigana letter ya-5
01B0E2 Hentaigana letter ya-yo
01B0E3 Hentaigana letter yu-1
01B0E4 Hentaigana letter yu-2
01B0E5 Hentaigana letter yu-3
01B0E6 Hentaigana letter yu-4
01B0E7 Hentaigana letter yo-1
01B0E8 Hentaigana letter yo-2
01B0E9 Hentaigana letter yo-3
01B0EA Hentaigana letter yo-4
01B0EB Hentaigana letter yo-5
01B0EC Hentaigana letter yo-6
01B0ED Hentaigana letter ra-1
01B0EE Hentaigana letter ra-2
01B0EF Hentaigana letter ra-3
01B0F0 Hentaigana letter ra-4
01B0F1 Hentaigana letter ri-1
01B0F2 Hentaigana letter ri-2
01B0F3 Hentaigana letter ri-3
01B0F4 Hentaigana letter ri-4
01B0F5 Hentaigana letter ri-5
01B0F6 Hentaigana letter ri-6
01B0F7 Hentaigana letter ri-7
01B0F8 Hentaigana letter ru-1
01B0F9 Hentaigana letter ru-2
01B0FA Hentaigana letter ru-3
01B0FB Hentaigana letter ru-4
01B0FC Hentaigana letter ru-5
01B0FD Hentaigana letter ru-6
01B0FE Hentaigana letter re-1
01B0FF Hentaigana letter re-2
01B100 Hentaigana letter re-3
01B101 Hentaigana letter re-4
01B102 Hentaigana letter ro-1
01B103 Hentaigana letter ro-2
01B104 Hentaigana letter ro-3
01B105 Hentaigana letter ro-4
01B106 Hentaigana letter ro-5
01B107 Hentaigana letter ro-6
01B108 Hentaigana letter wa-1
01B109 Hentaigana letter wa-2
01B10A Hentaigana letter wa-3
01B10B Hentaigana letter wa-4
01B10C Hentaigana letter wa-5
01B10D Hentaigana letter wi-1
01B10E Hentaigana letter wi-2
01B10F Hentaigana letter wi-3
01B110 Hentaigana letter wi-4
01B111 Hentaigana letter wi-5
01B112 Hentaigana letter we-1
01B113 Hentaigana letter we-2
01B114 Hentaigana letter we-3
01B115 Hentaigana letter we-4
01B116 Hentaigana letter wo-1
01B117 Hentaigana letter wo-2
01B118 Hentaigana letter wo-3
01B119 Hentaigana letter wo-4
01B11A Hentaigana letter wo-5
01B11B Hentaigana letter wo-6
01B11C Hentaigana letter wo-7
01B11D Hentaigana letter n-mu-mo-1
01B11E Hentaigana letter n-mu-mo-2
01B11F Hiragana letter archaic wu
01B120 Katakana letter archaic yi
01B121 Katakana letter archaic ye
01B122 Katakana letter archaic wu
01B150 Hiragana letter small wi
01B151 Hiragana letter small we
01B152 Hiragana letter small wo
01B164 Katakana letter small wi
01B165 Katakana letter small we
01B166 Katakana letter small wo
01B167 Katakana letter small n
01B170 Nushu character-1b170
01B171 Nushu character-1b171
01B172 Nushu character-1b172
01B173 Nushu character-1b173
01B174 Nushu character-1b174
01B175 Nushu character-1b175
01B176 Nushu character-1b176
01B177 Nushu character-1b177
01B178 Nushu character-1b178
01B179 Nushu character-1b179
01B17A Nushu character-1b17a
01B17B Nushu character-1b17b
01B17C Nushu character-1b17c
01B17D Nushu character-1b17d
01B17E Nushu character-1b17e
01B17F Nushu character-1b17f
01B180 Nushu character-1b180
01B181 Nushu character-1b181
01B182 Nushu character-1b182
01B183 Nushu character-1b183
01B184 Nushu character-1b184
01B185 Nushu character-1b185
01B186 Nushu character-1b186
01B187 Nushu character-1b187
01B188 Nushu character-1b188
01B189 Nushu character-1b189
01B18A Nushu character-1b18a
01B18B Nushu character-1b18b
01B18C Nushu character-1b18c
01B18D Nushu character-1b18d
01B18E Nushu character-1b18e
01B18F Nushu character-1b18f
01B190 Nushu character-1b190
01B191 Nushu character-1b191
01B192 Nushu character-1b192
01B193 Nushu character-1b193
01B194 Nushu character-1b194
01B195 Nushu character-1b195
01B196 Nushu character-1b196
01B197 Nushu character-1b197
01B198 Nushu character-1b198
01B199 Nushu character-1b199
01B19A Nushu character-1b19a
01B19B Nushu character-1b19b
01B19C Nushu character-1b19c
01B19D Nushu character-1b19d
01B19E Nushu character-1b19e
01B19F Nushu character-1b19f
01B1A0 Nushu character-1b1a0
01B1A1 Nushu character-1b1a1
01B1A2 Nushu character-1b1a2
01B1A3 Nushu character-1b1a3
01B1A4 Nushu character-1b1a4
01B1A5 Nushu character-1b1a5
01B1A6 Nushu character-1b1a6
01B1A7 Nushu character-1b1a7
01B1A8 Nushu character-1b1a8
01B1A9 Nushu character-1b1a9
01B1AA Nushu character-1b1aa
01B1AB Nushu character-1b1ab
01B1AC Nushu character-1b1ac
01B1AD Nushu character-1b1ad
01B1AE Nushu character-1b1ae
01B1AF Nushu character-1b1af
01B1B0 Nushu character-1b1b0
01B1B1 Nushu character-1b1b1
01B1B2 Nushu character-1b1b2
01B1B3 Nushu character-1b1b3
01B1B4 Nushu character-1b1b4
01B1B5 Nushu character-1b1b5
01B1B6 Nushu character-1b1b6
01B1B7 Nushu character-1b1b7
01B1B8 Nushu character-1b1b8
01B1B9 Nushu character-1b1b9
01B1BA Nushu character-1b1ba
01B1BB Nushu character-1b1bb
01B1BC Nushu character-1b1bc
01B1BD Nushu character-1b1bd
01B1BE Nushu character-1b1be
01B1BF Nushu character-1b1bf
01B1C0 Nushu character-1b1c0
01B1C1 Nushu character-1b1c1
01B1C2 Nushu character-1b1c2
01B1C3 Nushu character-1b1c3
01B1C4 Nushu character-1b1c4
01B1C5 Nushu character-1b1c5
01B1C6 Nushu character-1b1c6
01B1C7 Nushu character-1b1c7
01B1C8 Nushu character-1b1c8
01B1C9 Nushu character-1b1c9
01B1CA Nushu character-1b1ca
01B1CB Nushu character-1b1cb
01B1CC Nushu character-1b1cc
01B1CD Nushu character-1b1cd
01B1CE Nushu character-1b1ce
01B1CF Nushu character-1b1cf
01B1D0 Nushu character-1b1d0
01B1D1 Nushu character-1b1d1
01B1D2 Nushu character-1b1d2
01B1D3 Nushu character-1b1d3
01B1D4 Nushu character-1b1d4
01B1D5 Nushu character-1b1d5
01B1D6 Nushu character-1b1d6
01B1D7 Nushu character-1b1d7
01B1D8 Nushu character-1b1d8
01B1D9 Nushu character-1b1d9
01B1DA Nushu character-1b1da
01B1DB Nushu character-1b1db
01B1DC Nushu character-1b1dc
01B1DD Nushu character-1b1dd
01B1DE Nushu character-1b1de
01B1DF Nushu character-1b1df
01B1E0 Nushu character-1b1e0
01B1E1 Nushu character-1b1e1
01B1E2 Nushu character-1b1e2
01B1E3 Nushu character-1b1e3
01B1E4 Nushu character-1b1e4
01B1E5 Nushu character-1b1e5
01B1E6 Nushu character-1b1e6
01B1E7 Nushu character-1b1e7
01B1E8 Nushu character-1b1e8
01B1E9 Nushu character-1b1e9
01B1EA Nushu character-1b1ea
01B1EB Nushu character-1b1eb
01B1EC Nushu character-1b1ec
01B1ED Nushu character-1b1ed
01B1EE Nushu character-1b1ee
01B1EF Nushu character-1b1ef
01B1F0 Nushu character-1b1f0
01B1F1 Nushu character-1b1f1
01B1F2 Nushu character-1b1f2
01B1F3 Nushu character-1b1f3
01B1F4 Nushu character-1b1f4
01B1F5 Nushu character-1b1f5
01B1F6 Nushu character-1b1f6
01B1F7 Nushu character-1b1f7
01B1F8 Nushu character-1b1f8
01B1F9 Nushu character-1b1f9
01B1FA Nushu character-1b1fa
01B1FB Nushu character-1b1fb
01B1FC Nushu character-1b1fc
01B1FD Nushu character-1b1fd
01B1FE Nushu character-1b1fe
01B1FF Nushu character-1b1ff
01B200 Nushu character-1b200
01B201 Nushu character-1b201
01B202 Nushu character-1b202
01B203 Nushu character-1b203
01B204 Nushu character-1b204
01B205 Nushu character-1b205
01B206 Nushu character-1b206
01B207 Nushu character-1b207
01B208 Nushu character-1b208
01B209 Nushu character-1b209
01B20A Nushu character-1b20a
01B20B Nushu character-1b20b
01B20C Nushu character-1b20c
01B20D Nushu character-1b20d
01B20E Nushu character-1b20e
01B20F Nushu character-1b20f
01B210 Nushu character-1b210
01B211 Nushu character-1b211
01B212 Nushu character-1b212
01B213 Nushu character-1b213
01B214 Nushu character-1b214
01B215 Nushu character-1b215
01B216 Nushu character-1b216
01B217 Nushu character-1b217
01B218 Nushu character-1b218
01B219 Nushu character-1b219
01B21A Nushu character-1b21a
01B21B Nushu character-1b21b
01B21C Nushu character-1b21c
01B21D Nushu character-1b21d
01B21E Nushu character-1b21e
01B21F Nushu character-1b21f
01B220 Nushu character-1b220
01B221 Nushu character-1b221
01B222 Nushu character-1b222
01B223 Nushu character-1b223
01B224 Nushu character-1b224
01B225 Nushu character-1b225
01B226 Nushu character-1b226
01B227 Nushu character-1b227
01B228 Nushu character-1b228
01B229 Nushu character-1b229
01B22A Nushu character-1b22a
01B22B Nushu character-1b22b
01B22C Nushu character-1b22c
01B22D Nushu character-1b22d
01B22E Nushu character-1b22e
01B22F Nushu character-1b22f
01B230 Nushu character-1b230
01B231 Nushu character-1b231
01B232 Nushu character-1b232
01B233 Nushu character-1b233
01B234 Nushu character-1b234
01B235 Nushu character-1b235
01B236 Nushu character-1b236
01B237 Nushu character-1b237
01B238 Nushu character-1b238
01B239 Nushu character-1b239
01B23A Nushu character-1b23a
01B23B Nushu character-1b23b
01B23C Nushu character-1b23c
01B23D Nushu character-1b23d
01B23E Nushu character-1b23e
01B23F Nushu character-1b23f
01B240 Nushu character-1b240
01B241 Nushu character-1b241
01B242 Nushu character-1b242
01B243 Nushu character-1b243
01B244 Nushu character-1b244
01B245 Nushu character-1b245
01B246 Nushu character-1b246
01B247 Nushu character-1b247
01B248 Nushu character-1b248
01B249 Nushu character-1b249
01B24A Nushu character-1b24a
01B24B Nushu character-1b24b
01B24C Nushu character-1b24c
01B24D Nushu character-1b24d
01B24E Nushu character-1b24e
01B24F Nushu character-1b24f
01B250 Nushu character-1b250
01B251 Nushu character-1b251
01B252 Nushu character-1b252
01B253 Nushu character-1b253
01B254 Nushu character-1b254
01B255 Nushu character-1b255
01B256 Nushu character-1b256
01B257 Nushu character-1b257
01B258 Nushu character-1b258
01B259 Nushu character-1b259
01B25A Nushu character-1b25a
01B25B Nushu character-1b25b
01B25C Nushu character-1b25c
01B25D Nushu character-1b25d
01B25E Nushu character-1b25e
01B25F Nushu character-1b25f
01B260 Nushu character-1b260
01B261 Nushu character-1b261
01B262 Nushu character-1b262
01B263 Nushu character-1b263
01B264 Nushu character-1b264
01B265 Nushu character-1b265
01B266 Nushu character-1b266
01B267 Nushu character-1b267
01B268 Nushu character-1b268
01B269 Nushu character-1b269
01B26A Nushu character-1b26a
01B26B Nushu character-1b26b
01B26C Nushu character-1b26c
01B26D Nushu character-1b26d
01B26E Nushu character-1b26e
01B26F Nushu character-1b26f
01B270 Nushu character-1b270
01B271 Nushu character-1b271
01B272 Nushu character-1b272
01B273 Nushu character-1b273
01B274 Nushu character-1b274
01B275 Nushu character-1b275
01B276 Nushu character-1b276
01B277 Nushu character-1b277
01B278 Nushu character-1b278
01B279 Nushu character-1b279
01B27A Nushu character-1b27a
";

pub const NAMES_65: &'static str = "01B27B Nushu character-1b27b
01B27C Nushu character-1b27c
01B27D Nushu character-1b27d
01B27E Nushu character-1b27e
01B27F Nushu character-1b27f
01B280 Nushu character-1b280
01B281 Nushu character-1b281
01B282 Nushu character-1b282
01B283 Nushu character-1b283
01B284 Nushu character-1b284
01B285 Nushu character-1b285
01B286 Nushu character-1b286
01B287 Nushu character-1b287
01B288 Nushu character-1b288
01B289 Nushu character-1b289
01B28A Nushu character-1b28a
01B28B Nushu character-1b28b
01B28C Nushu character-1b28c
01B28D Nushu character-1b28d
01B28E Nushu character-1b28e
01B28F Nushu character-1b28f
01B290 Nushu character-1b290
01B291 Nushu character-1b291
01B292 Nushu character-1b292
01B293 Nushu character-1b293
01B294 Nushu character-1b294
01B295 Nushu character-1b295
01B296 Nushu character-1b296
01B297 Nushu character-1b297
01B298 Nushu character-1b298
01B299 Nushu character-1b299
01B29A Nushu character-1b29a
01B29B Nushu character-1b29b
01B29C Nushu character-1b29c
01B29D Nushu character-1b29d
01B29E Nushu character-1b29e
01B29F Nushu character-1b29f
01B2A0 Nushu character-1b2a0
01B2A1 Nushu character-1b2a1
01B2A2 Nushu character-1b2a2
01B2A3 Nushu character-1b2a3
01B2A4 Nushu character-1b2a4
01B2A5 Nushu character-1b2a5
01B2A6 Nushu character-1b2a6
01B2A7 Nushu character-1b2a7
01B2A8 Nushu character-1b2a8
01B2A9 Nushu character-1b2a9
01B2AA Nushu character-1b2aa
01B2AB Nushu character-1b2ab
01B2AC Nushu character-1b2ac
01B2AD Nushu character-1b2ad
01B2AE Nushu character-1b2ae
01B2AF Nushu character-1b2af
01B2B0 Nushu character-1b2b0
01B2B1 Nushu character-1b2b1
01B2B2 Nushu character-1b2b2
01B2B3 Nushu character-1b2b3
01B2B4 Nushu character-1b2b4
01B2B5 Nushu character-1b2b5
01B2B6 Nushu character-1b2b6
01B2B7 Nushu character-1b2b7
01B2B8 Nushu character-1b2b8
01B2B9 Nushu character-1b2b9
01B2BA Nushu character-1b2ba
01B2BB Nushu character-1b2bb
01B2BC Nushu character-1b2bc
01B2BD Nushu character-1b2bd
01B2BE Nushu character-1b2be
01B2BF Nushu character-1b2bf
01B2C0 Nushu character-1b2c0
01B2C1 Nushu character-1b2c1
01B2C2 Nushu character-1b2c2
01B2C3 Nushu character-1b2c3
01B2C4 Nushu character-1b2c4
01B2C5 Nushu character-1b2c5
01B2C6 Nushu character-1b2c6
01B2C7 Nushu character-1b2c7
01B2C8 Nushu character-1b2c8
01B2C9 Nushu character-1b2c9
01B2CA Nushu character-1b2ca
01B2CB Nushu character-1b2cb
01B2CC Nushu character-1b2cc
01B2CD Nushu character-1b2cd
01B2CE Nushu character-1b2ce
01B2CF Nushu character-1b2cf
01B2D0 Nushu character-1b2d0
01B2D1 Nushu character-1b2d1
01B2D2 Nushu character-1b2d2
01B2D3 Nushu character-1b2d3
01B2D4 Nushu character-1b2d4
01B2D5 Nushu character-1b2d5
01B2D6 Nushu character-1b2d6
01B2D7 Nushu character-1b2d7
01B2D8 Nushu character-1b2d8
01B2D9 Nushu character-1b2d9
01B2DA Nushu character-1b2da
01B2DB Nushu character-1b2db
01B2DC Nushu character-1b2dc
01B2DD Nushu character-1b2dd
01B2DE Nushu character-1b2de
01B2DF Nushu character-1b2df
01B2E0 Nushu character-1b2e0
01B2E1 Nushu character-1b2e1
01B2E2 Nushu character-1b2e2
01B2E3 Nushu character-1b2e3
01B2E4 Nushu character-1b2e4
01B2E5 Nushu character-1b2e5
01B2E6 Nushu character-1b2e6
01B2E7 Nushu character-1b2e7
01B2E8 Nushu character-1b2e8
01B2E9 Nushu character-1b2e9
01B2EA Nushu character-1b2ea
01B2EB Nushu character-1b2eb
01B2EC Nushu character-1b2ec
01B2ED Nushu character-1b2ed
01B2EE Nushu character-1b2ee
01B2EF Nushu character-1b2ef
01B2F0 Nushu character-1b2f0
01B2F1 Nushu character-1b2f1
01B2F2 Nushu character-1b2f2
01B2F3 Nushu character-1b2f3
01B2F4 Nushu character-1b2f4
01B2F5 Nushu character-1b2f5
01B2F6 Nushu character-1b2f6
01B2F7 Nushu character-1b2f7
01B2F8 Nushu character-1b2f8
01B2F9 Nushu character-1b2f9
01B2FA Nushu character-1b2fa
01B2FB Nushu character-1b2fb
01BC00 Duployan letter h
01BC01 Duployan letter x
01BC02 Duployan letter p
01BC03 Duployan letter t
01BC04 Duployan letter f
01BC05 Duployan letter k
01BC06 Duployan letter l
01BC07 Duployan letter b
01BC08 Duployan letter d
01BC09 Duployan letter v
01BC0A Duployan letter g
01BC0B Duployan letter r
01BC0C Duployan letter p n
01BC0D Duployan letter d s
01BC0E Duployan letter f n
01BC0F Duployan letter k m
01BC10 Duployan letter r s
01BC11 Duployan letter th
01BC12 Duployan letter sloan dh
01BC13 Duployan letter dh
01BC14 Duployan letter kk
01BC15 Duployan letter sloan j
01BC16 Duployan letter hl
01BC17 Duployan letter lh
01BC18 Duployan letter rh
01BC19 Duployan letter m
01BC1A Duployan letter n
01BC1B Duployan letter j
01BC1C Duployan letter s
01BC1D Duployan letter m n
01BC1E Duployan letter n m
01BC1F Duployan letter j m
01BC20 Duployan letter s j
01BC21 Duployan letter m with dot
01BC22 Duployan letter n with dot
01BC23 Duployan letter j with dot
01BC24 Duployan letter j with dots inside and above
01BC25 Duployan letter s with dot
01BC26 Duployan letter s with dot below
01BC27 Duployan letter m s
01BC28 Duployan letter n s
01BC29 Duployan letter j s
01BC2A Duployan letter s s
01BC2B Duployan letter m n s
01BC2C Duployan letter n m s
01BC2D Duployan letter j m s
01BC2E Duployan letter s j s
01BC2F Duployan letter j s with dot
01BC30 Duployan letter j n
01BC31 Duployan letter j n s
01BC32 Duployan letter s t
01BC33 Duployan letter s t r
01BC34 Duployan letter s p
01BC35 Duployan letter s p r
01BC36 Duployan letter t s
01BC37 Duployan letter t r s
01BC38 Duployan letter w
01BC39 Duployan letter wh
01BC3A Duployan letter w r
01BC3B Duployan letter s n
01BC3C Duployan letter s m
01BC3D Duployan letter k r s
01BC3E Duployan letter g r s
01BC3F Duployan letter s k
01BC40 Duployan letter s k r
01BC41 Duployan letter a
01BC42 Duployan letter sloan ow
01BC43 Duployan letter oa
01BC44 Duployan letter o
01BC45 Duployan letter aou
01BC46 Duployan letter i
01BC47 Duployan letter e
01BC48 Duployan letter ie
01BC49 Duployan letter short i
01BC4A Duployan letter ui
01BC4B Duployan letter ee
01BC4C Duployan letter sloan eh
01BC4D Duployan letter romanian i
01BC4E Duployan letter sloan ee
01BC4F Duployan letter long i
01BC50 Duployan letter ye
01BC51 Duployan letter u
01BC52 Duployan letter eu
01BC53 Duployan letter xw
01BC54 Duployan letter u n
01BC55 Duployan letter long u
01BC56 Duployan letter romanian u
01BC57 Duployan letter uh
01BC58 Duployan letter sloan u
01BC59 Duployan letter ooh
01BC5A Duployan letter ow
01BC5B Duployan letter ou
01BC5C Duployan letter wa
01BC5D Duployan letter wo
01BC5E Duployan letter wi
01BC5F Duployan letter wei
01BC60 Duployan letter wow
01BC61 Duployan letter nasal u
01BC62 Duployan letter nasal o
01BC63 Duployan letter nasal i
01BC64 Duployan letter nasal a
01BC65 Duployan letter pernin an
01BC66 Duployan letter pernin am
01BC67 Duployan letter sloan en
01BC68 Duployan letter sloan an
01BC69 Duployan letter sloan on
01BC6A Duployan letter vocalic m
01BC70 Duployan affix left horizontal secant
01BC71 Duployan affix mid horizontal secant
01BC72 Duployan affix right horizontal secant
01BC73 Duployan affix low vertical secant
01BC74 Duployan affix mid vertical secant
01BC75 Duployan affix high vertical secant
01BC76 Duployan affix attached secant
01BC77 Duployan affix attached left-to-right secant
01BC78 Duployan affix attached tangent
01BC79 Duployan affix attached tail
01BC7A Duployan affix attached e hook
01BC7B Duployan affix attached i hook
01BC7C Duployan affix attached tangent hook
01BC80 Duployan affix high acute
01BC81 Duployan affix high tight acute
01BC82 Duployan affix high grave
01BC83 Duployan affix high long grave
01BC84 Duployan affix high dot
01BC85 Duployan affix high circle
01BC86 Duployan affix high line
01BC87 Duployan affix high wave
01BC88 Duployan affix high vertical
01BC90 Duployan affix low acute
01BC91 Duployan affix low tight acute
01BC92 Duployan affix low grave
01BC93 Duployan affix low long grave
01BC94 Duployan affix low dot
01BC95 Duployan affix low circle
01BC96 Duployan affix low line
01BC97 Duployan affix low wave
01BC98 Duployan affix low vertical
01BC99 Duployan affix low arrow
01BC9C Duployan sign o with cross
01BC9D Duployan thick letter selector
01BC9E Duployan double mark
01BC9F Duployan punctuation chinook full stop
01BCA0 Shorthand format letter overlap
01BCA1 Shorthand format continuing overlap
01BCA2 Shorthand format down step
01BCA3 Shorthand format up step
01CF00 Znamenny combining mark gorazdo nizko s kryzhem on left
01CF01 Znamenny combining mark nizko s kryzhem on left
01CF02 Znamenny combining mark tsata on left
01CF03 Znamenny combining mark gorazdo nizko on left
01CF04 Znamenny combining mark nizko on left
01CF05 Znamenny combining mark sredne on left
01CF06 Znamenny combining mark malo povyshe on left
01CF07 Znamenny combining mark povyshe on left
01CF08 Znamenny combining mark vysoko on left
01CF09 Znamenny combining mark malo povyshe s khokhlom on left
01CF0A Znamenny combining mark povyshe s khokhlom on left
01CF0B Znamenny combining mark vysoko s khokhlom on left
01CF0C Znamenny combining mark gorazdo nizko s kryzhem on right
01CF0D Znamenny combining mark nizko s kryzhem on right
01CF0E Znamenny combining mark tsata on right
01CF0F Znamenny combining mark gorazdo nizko on right
01CF10 Znamenny combining mark nizko on right
01CF11 Znamenny combining mark sredne on right
01CF12 Znamenny combining mark malo povyshe on right
01CF13 Znamenny combining mark povyshe on right
01CF14 Znamenny combining mark vysoko on right
01CF15 Znamenny combining mark malo povyshe s khokhlom on right
01CF16 Znamenny combining mark povyshe s khokhlom on right
01CF17 Znamenny combining mark vysoko s khokhlom on right
01CF18 Znamenny combining mark tsata s kryzhem
01CF19 Znamenny combining mark malo povyshe s kryzhem
01CF1A Znamenny combining mark stranno malo povyshe
01CF1B Znamenny combining mark povyshe s kryzhem
01CF1C Znamenny combining mark povyshe stranno
01CF1D Znamenny combining mark vysoko s kryzhem
01CF1E Znamenny combining mark malo povyshe stranno
01CF1F Znamenny combining mark gorazdo vysoko
01CF20 Znamenny combining mark zelo
01CF21 Znamenny combining mark on
01CF22 Znamenny combining mark ravno
01CF23 Znamenny combining mark tikhaya
01CF24 Znamenny combining mark borzaya
01CF25 Znamenny combining mark udarka
01CF26 Znamenny combining mark podvertka
01CF27 Znamenny combining mark lomka
01CF28 Znamenny combining mark kupnaya
01CF29 Znamenny combining mark kachka
01CF2A Znamenny combining mark zevok
01CF2B Znamenny combining mark skoba
01CF2C Znamenny combining mark razseka
01CF2D Znamenny combining mark kryzh on left
01CF30 Znamenny combining tonal range mark mrachno
01CF31 Znamenny combining tonal range mark svetlo
01CF32 Znamenny combining tonal range mark tresvetlo
01CF33 Znamenny combining mark zaderzhka
01CF34 Znamenny combining mark demestvenny zaderzhka
01CF35 Znamenny combining mark otsechka
01CF36 Znamenny combining mark podchashie
01CF37 Znamenny combining mark podchashie with vertical stroke
01CF38 Znamenny combining mark chashka
01CF39 Znamenny combining mark chashka polnaya
01CF3A Znamenny combining mark oblachko
01CF3B Znamenny combining mark sorochya nozhka
01CF3C Znamenny combining mark tochka
01CF3D Znamenny combining mark dvoetochie
01CF3E Znamenny combining attaching vertical omet
01CF3F Znamenny combining mark curved omet
01CF40 Znamenny combining mark kryzh
01CF41 Znamenny combining lower tonal range indicator
01CF42 Znamenny priznak modifier level-2
01CF43 Znamenny priznak modifier level-3
01CF44 Znamenny priznak modifier direction flip
01CF45 Znamenny priznak modifier kryzh
01CF46 Znamenny priznak modifier rog
01CF50 Znamenny neume kryuk
01CF51 Znamenny neume kryuk tikhy
01CF52 Znamenny neume paraklit
01CF53 Znamenny neume dva v chelnu
01CF54 Znamenny neume klyuch
01CF55 Znamenny neume zanozhek
01CF56 Znamenny neume stopitsa
01CF57 Znamenny neume stopitsa s ochkom
01CF58 Znamenny neume perevodka
01CF59 Znamenny neume perevodka nepostoyannaya
01CF5A Znamenny neume stopitsa with sorochya nozhka
01CF5B Znamenny neume chelyustka
01CF5C Znamenny neume palka
01CF5D Znamenny neume zapyataya
01CF5E Znamenny neume golubchik borzy
01CF5F Znamenny neume golubchik tikhy
01CF60 Znamenny neume golubchik mrachny
01CF61 Znamenny neume golubchik svetly
01CF62 Znamenny neume golubchik tresvetly
01CF63 Znamenny neume vrakhiya prostaya
01CF64 Znamenny neume vrakhiya mrachnaya
01CF65 Znamenny neume vrakhiya svetlaya
01CF66 Znamenny neume vrakhiya tresvetlaya
01CF67 Znamenny neume vrakhiya klyuchevaya prostaya
01CF68 Znamenny neume vrakhiya klyuchevaya mrachnaya
01CF69 Znamenny neume vrakhiya klyuchevaya svetlaya
01CF6A Znamenny neume vrakhiya klyuchevaya tresvetlaya
01CF6B Znamenny neume double zapyataya
01CF6C Znamenny neume reversed chelyustka
01CF6D Znamenny neume derbitsa
01CF6E Znamenny neume khamilo
01CF6F Znamenny neume chashka
01CF70 Znamenny neume podchashie
01CF71 Znamenny neume skameytsa mrachnaya
01CF72 Znamenny neume skameytsa svetlaya
01CF73 Znamenny neume skameytsa tresvetlaya
01CF74 Znamenny neume skameytsa tikhaya
01CF75 Znamenny neume demestvenny klyuch
01CF76 Znamenny neume skameytsa klyuchevaya svetlaya
01CF77 Znamenny neume skameytsa klyuchenepostoyannaya
01CF78 Znamenny neume skameytsa klyuchevaya tikhaya
01CF79 Znamenny neume skameytsa dvoechelnaya prostaya
01CF7A Znamenny neume skameytsa dvoechelnaya svetlaya
01CF7B Znamenny neume skameytsa dvoechelnaya nepostoyannaya
01CF7C Znamenny neume skameytsa dvoechelnaya klyuchevaya
01CF7D Znamenny neume slozhitie
01CF7E Znamenny neume slozhitie s zapyatoy
01CF7F Znamenny neume slozhitie zakrytoe
01CF80 Znamenny neume slozhitie s kryzhem
01CF81 Znamenny neume kryzh
01CF82 Znamenny neume rog
01CF83 Znamenny neume fita
01CF84 Znamenny neume kobyla
01CF85 Znamenny neume zmeytsa
01CF86 Znamenny neume statya
01CF87 Znamenny neume statya s zapyatoy
01CF88 Znamenny neume statya s kryzhem
01CF89 Znamenny neume statya s zapyatoy i kryzhem
01CF8A Znamenny neume statya s kryzhem i zapyatoy
01CF8B Znamenny neume statya zakrytaya
01CF8C Znamenny neume statya zakrytaya s zapyatoy
01CF8D Znamenny neume statya s rogom
";

pub const NAMES_66: &'static str = "01CF8E Znamenny neume statya s dvumya zapyatymi
01CF8F Znamenny neume statya s zapyatoy i podchashiem
01CF90 Znamenny neume polkulizmy
01CF91 Znamenny neume statya nepostoyannaya
01CF92 Znamenny neume strela prostaya
01CF93 Znamenny neume strela mrachnotikhaya
01CF94 Znamenny neume strela kryzhevaya
01CF95 Znamenny neume strela polupovodnaya
01CF96 Znamenny neume strela povodnaya
01CF97 Znamenny neume strela nepostoyannaya
01CF98 Znamenny neume strela klyuchepovodnaya
01CF99 Znamenny neume strela klyuchenepostoyannaya
01CF9A Znamenny neume strela tikhaya putnaya
01CF9B Znamenny neume strela dvoechelnaya
01CF9C Znamenny neume strela dvoechelnokryzhevaya
01CF9D Znamenny neume strela dvoechelnopovodnaya
01CF9E Znamenny neume strela dvoechelnaya klyuchevaya
01CF9F Znamenny neume strela dvoechelnopovodnaya klyuchevaya
01CFA0 Znamenny neume strela gromnaya with single zapyataya
01CFA1 Znamenny neume strela gromopovodnaya with single zapyataya
01CFA2 Znamenny neume strela gromnaya
01CFA3 Znamenny neume strela gromopovodnaya
01CFA4 Znamenny neume strela gromopovodnaya with double zapyataya
01CFA5 Znamenny neume strela gromokryzhevaya
01CFA6 Znamenny neume strela gromokryzhevaya povodnaya
01CFA7 Znamenny neume mechik
01CFA8 Znamenny neume mechik povodny
01CFA9 Znamenny neume mechik klyuchevoy
01CFAA Znamenny neume mechik klyuchepovodny
01CFAB Znamenny neume mechik klyuchenepostoyanny
01CFAC Znamenny neume strela tryasoglasnaya
01CFAD Znamenny neume strela tryasopovodnaya
01CFAE Znamenny neume strela tryasostrelnaya
01CFAF Znamenny neume osoka
01CFB0 Znamenny neume osoka svetlaya
01CFB1 Znamenny neume osoka tresvetlaya
01CFB2 Znamenny neume osoka kryukovaya svetlaya
01CFB3 Znamenny neume osoka klyuchevaya svetlaya
01CFB4 Znamenny neume osoka klyuchevaya nepostoyannaya
01CFB5 Znamenny neume strela kryukovaya
01CFB6 Znamenny neume strela kryukovaya povodnaya
01CFB7 Znamenny neume strela kryukovaya gromnaya with single zapyataya
01CFB8 Znamenny neume strela kryukovaya gromopovodnaya with single zapyataya
01CFB9 Znamenny neume strela kryukovaya gromnaya
01CFBA Znamenny neume strela kryukovaya gromopovodnaya
01CFBB Znamenny neume strela kryukovaya gromopovodnaya with double zapyataya
01CFBC Znamenny neume strela kryukovaya gromokryzhevaya
01CFBD Znamenny neume strela kryukovaya gromokryzhevaya povodnaya
01CFBE Znamenny neume strela kryukovaya tryaska
01CFBF Znamenny neume kufisma
01CFC0 Znamenny neume oblako
01CFC1 Znamenny neume duda
01CFC2 Znamenny neume nemka
01CFC3 Znamenny neume pauk
01D000 Byzantine musical symbol psili
01D001 Byzantine musical symbol daseia
01D002 Byzantine musical symbol perispomeni
01D003 Byzantine musical symbol oxeia ekfonitikon
01D004 Byzantine musical symbol oxeia dipli
01D005 Byzantine musical symbol vareia ekfonitikon
01D006 Byzantine musical symbol vareia dipli
01D007 Byzantine musical symbol kathisti
01D008 Byzantine musical symbol syrmatiki
01D009 Byzantine musical symbol paraklitiki
01D00A Byzantine musical symbol ypokrisis
01D00B Byzantine musical symbol ypokrisis dipli
01D00C Byzantine musical symbol kremasti
01D00D Byzantine musical symbol apeso ekfonitikon
01D00E Byzantine musical symbol exo ekfonitikon
01D00F Byzantine musical symbol teleia
01D010 Byzantine musical symbol kentimata
01D011 Byzantine musical symbol apostrofos
01D012 Byzantine musical symbol apostrofos dipli
01D013 Byzantine musical symbol synevma
01D014 Byzantine musical symbol thita
01D015 Byzantine musical symbol oligon archaion
01D016 Byzantine musical symbol gorgon archaion
01D017 Byzantine musical symbol psilon
01D018 Byzantine musical symbol chamilon
01D019 Byzantine musical symbol vathy
01D01A Byzantine musical symbol ison archaion
01D01B Byzantine musical symbol kentima archaion
01D01C Byzantine musical symbol kentimata archaion
01D01D Byzantine musical symbol saximata
01D01E Byzantine musical symbol parichon
01D01F Byzantine musical symbol stavros apodexia
01D020 Byzantine musical symbol oxeiai archaion
01D021 Byzantine musical symbol vareiai archaion
01D022 Byzantine musical symbol apoderma archaion
01D023 Byzantine musical symbol apothema
01D024 Byzantine musical symbol klasma
01D025 Byzantine musical symbol revma
01D026 Byzantine musical symbol piasma archaion
01D027 Byzantine musical symbol tinagma
01D028 Byzantine musical symbol anatrichisma
01D029 Byzantine musical symbol seisma
01D02A Byzantine musical symbol synagma archaion
01D02B Byzantine musical symbol synagma meta stavrou
01D02C Byzantine musical symbol oyranisma archaion
01D02D Byzantine musical symbol thema
01D02E Byzantine musical symbol lemoi
01D02F Byzantine musical symbol dyo
01D030 Byzantine musical symbol tria
01D031 Byzantine musical symbol tessera
01D032 Byzantine musical symbol kratimata
01D033 Byzantine musical symbol apeso exo neo
01D034 Byzantine musical symbol fthora archaion
01D035 Byzantine musical symbol imifthora
01D036 Byzantine musical symbol tromikon archaion
01D037 Byzantine musical symbol katava tromikon
01D038 Byzantine musical symbol pelaston
01D039 Byzantine musical symbol psifiston
01D03A Byzantine musical symbol kontevma
01D03B Byzantine musical symbol chorevma archaion
01D03C Byzantine musical symbol rapisma
01D03D Byzantine musical symbol parakalesma archaion
01D03E Byzantine musical symbol paraklitiki archaion
01D03F Byzantine musical symbol ichadin
01D040 Byzantine musical symbol nana
01D041 Byzantine musical symbol petasma
01D042 Byzantine musical symbol kontevma allo
01D043 Byzantine musical symbol tromikon allo
01D044 Byzantine musical symbol straggismata
01D045 Byzantine musical symbol gronthismata
01D046 Byzantine musical symbol ison neo
01D047 Byzantine musical symbol oligon neo
01D048 Byzantine musical symbol oxeia neo
01D049 Byzantine musical symbol petasti
01D04A Byzantine musical symbol koufisma
01D04B Byzantine musical symbol petastokoufisma
01D04C Byzantine musical symbol kratimokoufisma
01D04D Byzantine musical symbol pelaston neo
01D04E Byzantine musical symbol kentimata neo ano
01D04F Byzantine musical symbol kentima neo ano
01D050 Byzantine musical symbol ypsili
01D051 Byzantine musical symbol apostrofos neo
01D052 Byzantine musical symbol apostrofoi syndesmos neo
01D053 Byzantine musical symbol yporroi
01D054 Byzantine musical symbol kratimoyporroon
01D055 Byzantine musical symbol elafron
01D056 Byzantine musical symbol chamili
01D057 Byzantine musical symbol mikron ison
01D058 Byzantine musical symbol vareia neo
01D059 Byzantine musical symbol piasma neo
01D05A Byzantine musical symbol psifiston neo
01D05B Byzantine musical symbol omalon
01D05C Byzantine musical symbol antikenoma
01D05D Byzantine musical symbol lygisma
01D05E Byzantine musical symbol paraklitiki neo
01D05F Byzantine musical symbol parakalesma neo
01D060 Byzantine musical symbol eteron parakalesma
01D061 Byzantine musical symbol kylisma
01D062 Byzantine musical symbol antikenokylisma
01D063 Byzantine musical symbol tromikon neo
01D064 Byzantine musical symbol ekstrepton
01D065 Byzantine musical symbol synagma neo
01D066 Byzantine musical symbol syrma
01D067 Byzantine musical symbol chorevma neo
01D068 Byzantine musical symbol epegerma
01D069 Byzantine musical symbol seisma neo
01D06A Byzantine musical symbol xiron klasma
01D06B Byzantine musical symbol tromikopsifiston
01D06C Byzantine musical symbol psifistolygisma
01D06D Byzantine musical symbol tromikolygisma
01D06E Byzantine musical symbol tromikoparakalesma
01D06F Byzantine musical symbol psifistoparakalesma
01D070 Byzantine musical symbol tromikosynagma
01D071 Byzantine musical symbol psifistosynagma
01D072 Byzantine musical symbol gorgosyntheton
01D073 Byzantine musical symbol argosyntheton
01D074 Byzantine musical symbol eteron argosyntheton
01D075 Byzantine musical symbol oyranisma neo
01D076 Byzantine musical symbol thematismos eso
01D077 Byzantine musical symbol thematismos exo
01D078 Byzantine musical symbol thema aploun
01D079 Byzantine musical symbol thes kai apothes
01D07A Byzantine musical symbol katavasma
01D07B Byzantine musical symbol endofonon
01D07C Byzantine musical symbol yfen kato
01D07D Byzantine musical symbol yfen ano
01D07E Byzantine musical symbol stavros
01D07F Byzantine musical symbol klasma ano
01D080 Byzantine musical symbol dipli archaion
01D081 Byzantine musical symbol kratima archaion
01D082 Byzantine musical symbol kratima allo
01D083 Byzantine musical symbol kratima neo
01D084 Byzantine musical symbol apoderma neo
01D085 Byzantine musical symbol apli
01D086 Byzantine musical symbol dipli
01D087 Byzantine musical symbol tripli
01D088 Byzantine musical symbol tetrapli
01D089 Byzantine musical symbol koronis
01D08A Byzantine musical symbol leimma enos chronou
01D08B Byzantine musical symbol leimma dyo chronon
01D08C Byzantine musical symbol leimma trion chronon
01D08D Byzantine musical symbol leimma tessaron chronon
01D08E Byzantine musical symbol leimma imiseos chronou
01D08F Byzantine musical symbol gorgon neo ano
01D090 Byzantine musical symbol gorgon parestigmenon aristera
01D091 Byzantine musical symbol gorgon parestigmenon dexia
01D092 Byzantine musical symbol digorgon
01D093 Byzantine musical symbol digorgon parestigmenon aristera kato
01D094 Byzantine musical symbol digorgon parestigmenon aristera ano
01D095 Byzantine musical symbol digorgon parestigmenon dexia
01D096 Byzantine musical symbol trigorgon
01D097 Byzantine musical symbol argon
01D098 Byzantine musical symbol imidiargon
01D099 Byzantine musical symbol diargon
01D09A Byzantine musical symbol agogi poli argi
01D09B Byzantine musical symbol agogi argoteri
01D09C Byzantine musical symbol agogi argi
01D09D Byzantine musical symbol agogi metria
01D09E Byzantine musical symbol agogi mesi
01D09F Byzantine musical symbol agogi gorgi
01D0A0 Byzantine musical symbol agogi gorgoteri
01D0A1 Byzantine musical symbol agogi poli gorgi
01D0A2 Byzantine musical symbol martyria protos ichos
01D0A3 Byzantine musical symbol martyria alli protos ichos
01D0A4 Byzantine musical symbol martyria deyteros ichos
01D0A5 Byzantine musical symbol martyria alli deyteros ichos
01D0A6 Byzantine musical symbol martyria tritos ichos
01D0A7 Byzantine musical symbol martyria trifonias
01D0A8 Byzantine musical symbol martyria tetartos ichos
01D0A9 Byzantine musical symbol martyria tetartos legetos ichos
01D0AA Byzantine musical symbol martyria legetos ichos
01D0AB Byzantine musical symbol martyria plagios ichos
01D0AC Byzantine musical symbol isakia telous ichimatos
01D0AD Byzantine musical symbol apostrofoi telous ichimatos
01D0AE Byzantine musical symbol fanerosis tetrafonias
01D0AF Byzantine musical symbol fanerosis monofonias
01D0B0 Byzantine musical symbol fanerosis difonias
01D0B1 Byzantine musical symbol martyria varys ichos
01D0B2 Byzantine musical symbol martyria protovarys ichos
01D0B3 Byzantine musical symbol martyria plagios tetartos ichos
01D0B4 Byzantine musical symbol gorthmikon n aploun
01D0B5 Byzantine musical symbol gorthmikon n diploun
01D0B6 Byzantine musical symbol enarxis kai fthora vou
01D0B7 Byzantine musical symbol imifonon
01D0B8 Byzantine musical symbol imifthoron
01D0B9 Byzantine musical symbol fthora archaion deyterou ichou
01D0BA Byzantine musical symbol fthora diatoniki pa
01D0BB Byzantine musical symbol fthora diatoniki nana
01D0BC Byzantine musical symbol fthora naos ichos
01D0BD Byzantine musical symbol fthora diatoniki di
01D0BE Byzantine musical symbol fthora skliron diatonon di
01D0BF Byzantine musical symbol fthora diatoniki ke
01D0C0 Byzantine musical symbol fthora diatoniki zo
01D0C1 Byzantine musical symbol fthora diatoniki ni kato
01D0C2 Byzantine musical symbol fthora diatoniki ni ano
01D0C3 Byzantine musical symbol fthora malakon chroma difonias
01D0C4 Byzantine musical symbol fthora malakon chroma monofonias
01D0C5 Byzantine musical symbol fhtora skliron chroma vasis
01D0C6 Byzantine musical symbol fthora skliron chroma synafi
01D0C7 Byzantine musical symbol fthora nenano
01D0C8 Byzantine musical symbol chroa zygos
01D0C9 Byzantine musical symbol chroa kliton
01D0CA Byzantine musical symbol chroa spathi
01D0CB Byzantine musical symbol fthora i yfesis tetartimorion
01D0CC Byzantine musical symbol fthora enarmonios antifonia
01D0CD Byzantine musical symbol yfesis tritimorion
01D0CE Byzantine musical symbol diesis tritimorion
01D0CF Byzantine musical symbol diesis tetartimorion
01D0D0 Byzantine musical symbol diesis apli dyo dodekata
01D0D1 Byzantine musical symbol diesis monogrammos tessera dodekata
01D0D2 Byzantine musical symbol diesis digrammos ex dodekata
01D0D3 Byzantine musical symbol diesis trigrammos okto dodekata
01D0D4 Byzantine musical symbol yfesis apli dyo dodekata
01D0D5 Byzantine musical symbol yfesis monogrammos tessera dodekata
01D0D6 Byzantine musical symbol yfesis digrammos ex dodekata
01D0D7 Byzantine musical symbol yfesis trigrammos okto dodekata
01D0D8 Byzantine musical symbol geniki diesis
01D0D9 Byzantine musical symbol geniki yfesis
01D0DA Byzantine musical symbol diastoli apli mikri
01D0DB Byzantine musical symbol diastoli apli megali
01D0DC Byzantine musical symbol diastoli dipli
01D0DD Byzantine musical symbol diastoli theseos
01D0DE Byzantine musical symbol simansis theseos
01D0DF Byzantine musical symbol simansis theseos disimou
01D0E0 Byzantine musical symbol simansis theseos trisimou
01D0E1 Byzantine musical symbol simansis theseos tetrasimou
01D0E2 Byzantine musical symbol simansis arseos
01D0E3 Byzantine musical symbol simansis arseos disimou
01D0E4 Byzantine musical symbol simansis arseos trisimou
01D0E5 Byzantine musical symbol simansis arseos tetrasimou
01D0E6 Byzantine musical symbol digramma gg
01D0E7 Byzantine musical symbol diftoggos ou
01D0E8 Byzantine musical symbol stigma
01D0E9 Byzantine musical symbol arktiko pa
01D0EA Byzantine musical symbol arktiko vou
01D0EB Byzantine musical symbol arktiko ga
01D0EC Byzantine musical symbol arktiko di
01D0ED Byzantine musical symbol arktiko ke
01D0EE Byzantine musical symbol arktiko zo
";

pub const NAMES_67: &'static str = "01D0EF Byzantine musical symbol arktiko ni
01D0F0 Byzantine musical symbol kentimata neo meso
01D0F1 Byzantine musical symbol kentima neo meso
01D0F2 Byzantine musical symbol kentimata neo kato
01D0F3 Byzantine musical symbol kentima neo kato
01D0F4 Byzantine musical symbol klasma kato
01D0F5 Byzantine musical symbol gorgon neo kato
01D100 Musical symbol single barline
01D101 Musical symbol double barline
01D102 Musical symbol final barline
01D103 Musical symbol reverse final barline
01D104 Musical symbol dashed barline
01D105 Musical symbol short barline
01D106 Musical symbol left repeat sign
01D107 Musical symbol right repeat sign
01D108 Musical symbol repeat dots
01D109 Musical symbol dal segno
01D10A Musical symbol da capo
01D10B Musical symbol segno
01D10C Musical symbol coda
01D10D Musical symbol repeated figure-1
01D10E Musical symbol repeated figure-2
01D10F Musical symbol repeated figure-3
01D110 Musical symbol fermata
01D111 Musical symbol fermata below
01D112 Musical symbol breath mark
01D113 Musical symbol caesura
01D114 Musical symbol brace
01D115 Musical symbol bracket
01D116 Musical symbol one-line staff
01D117 Musical symbol two-line staff
01D118 Musical symbol three-line staff
01D119 Musical symbol four-line staff
01D11A Musical symbol five-line staff
01D11B Musical symbol six-line staff
01D11C Musical symbol six-string fretboard
01D11D Musical symbol four-string fretboard
01D11E Musical symbol g clef
01D11F Musical symbol g clef ottava alta
01D120 Musical symbol g clef ottava bassa
01D121 Musical symbol c clef
01D122 Musical symbol f clef
01D123 Musical symbol f clef ottava alta
01D124 Musical symbol f clef ottava bassa
01D125 Musical symbol drum clef-1
01D126 Musical symbol drum clef-2
01D129 Musical symbol multiple measure rest
01D12A Musical symbol double sharp
01D12B Musical symbol double flat
01D12C Musical symbol flat up
01D12D Musical symbol flat down
01D12E Musical symbol natural up
01D12F Musical symbol natural down
01D130 Musical symbol sharp up
01D131 Musical symbol sharp down
01D132 Musical symbol quarter tone sharp
01D133 Musical symbol quarter tone flat
01D134 Musical symbol common time
01D135 Musical symbol cut time
01D136 Musical symbol ottava alta
01D137 Musical symbol ottava bassa
01D138 Musical symbol quindicesima alta
01D139 Musical symbol quindicesima bassa
01D13A Musical symbol multi rest
01D13B Musical symbol whole rest
01D13C Musical symbol half rest
01D13D Musical symbol quarter rest
01D13E Musical symbol eighth rest
01D13F Musical symbol sixteenth rest
01D140 Musical symbol thirty-second rest
01D141 Musical symbol sixty-fourth rest
01D142 Musical symbol one hundred twenty-eighth rest
01D143 Musical symbol x notehead
01D144 Musical symbol plus notehead
01D145 Musical symbol circle x notehead
01D146 Musical symbol square notehead white
01D147 Musical symbol square notehead black
01D148 Musical symbol triangle notehead up white
01D149 Musical symbol triangle notehead up black
01D14A Musical symbol triangle notehead left white
01D14B Musical symbol triangle notehead left black
01D14C Musical symbol triangle notehead right white
01D14D Musical symbol triangle notehead right black
01D14E Musical symbol triangle notehead down white
01D14F Musical symbol triangle notehead down black
01D150 Musical symbol triangle notehead up right white
01D151 Musical symbol triangle notehead up right black
01D152 Musical symbol moon notehead white
01D153 Musical symbol moon notehead black
01D154 Musical symbol triangle-round notehead down white
01D155 Musical symbol triangle-round notehead down black
01D156 Musical symbol parenthesis notehead
01D157 Musical symbol void notehead
01D158 Musical symbol notehead black
01D159 Musical symbol null notehead
01D15A Musical symbol cluster notehead white
01D15B Musical symbol cluster notehead black
01D15C Musical symbol breve
01D15D Musical symbol whole note
01D15E Musical symbol half note
01D15F Musical symbol quarter note
01D160 Musical symbol eighth note
01D161 Musical symbol sixteenth note
01D162 Musical symbol thirty-second note
01D163 Musical symbol sixty-fourth note
01D164 Musical symbol one hundred twenty-eighth note
01D165 Musical symbol combining stem
01D166 Musical symbol combining sprechgesang stem
01D167 Musical symbol combining tremolo-1
01D168 Musical symbol combining tremolo-2
01D169 Musical symbol combining tremolo-3
01D16A Musical symbol fingered tremolo-1
01D16B Musical symbol fingered tremolo-2
01D16C Musical symbol fingered tremolo-3
01D16D Musical symbol combining augmentation dot
01D16E Musical symbol combining flag-1
01D16F Musical symbol combining flag-2
01D170 Musical symbol combining flag-3
01D171 Musical symbol combining flag-4
01D172 Musical symbol combining flag-5
01D173 Musical symbol begin beam
01D174 Musical symbol end beam
01D175 Musical symbol begin tie
01D176 Musical symbol end tie
01D177 Musical symbol begin slur
01D178 Musical symbol end slur
01D179 Musical symbol begin phrase
01D17A Musical symbol end phrase
01D17B Musical symbol combining accent
01D17C Musical symbol combining staccato
01D17D Musical symbol combining tenuto
01D17E Musical symbol combining staccatissimo
01D17F Musical symbol combining marcato
01D180 Musical symbol combining marcato-staccato
01D181 Musical symbol combining accent-staccato
01D182 Musical symbol combining loure
01D183 Musical symbol arpeggiato up
01D184 Musical symbol arpeggiato down
01D185 Musical symbol combining doit
01D186 Musical symbol combining rip
01D187 Musical symbol combining flip
01D188 Musical symbol combining smear
01D189 Musical symbol combining bend
01D18A Musical symbol combining double tongue
01D18B Musical symbol combining triple tongue
01D18C Musical symbol rinforzando
01D18D Musical symbol subito
01D18E Musical symbol z
01D18F Musical symbol piano
01D190 Musical symbol mezzo
01D191 Musical symbol forte
01D192 Musical symbol crescendo
01D193 Musical symbol decrescendo
01D194 Musical symbol grace note slash
01D195 Musical symbol grace note no slash
01D196 Musical symbol tr
01D197 Musical symbol turn
01D198 Musical symbol inverted turn
01D199 Musical symbol turn slash
01D19A Musical symbol turn up
01D19B Musical symbol ornament stroke-1
01D19C Musical symbol ornament stroke-2
01D19D Musical symbol ornament stroke-3
01D19E Musical symbol ornament stroke-4
01D19F Musical symbol ornament stroke-5
01D1A0 Musical symbol ornament stroke-6
01D1A1 Musical symbol ornament stroke-7
01D1A2 Musical symbol ornament stroke-8
01D1A3 Musical symbol ornament stroke-9
01D1A4 Musical symbol ornament stroke-10
01D1A5 Musical symbol ornament stroke-11
01D1A6 Musical symbol hauptstimme
01D1A7 Musical symbol nebenstimme
01D1A8 Musical symbol end of stimme
01D1A9 Musical symbol degree slash
01D1AA Musical symbol combining down bow
01D1AB Musical symbol combining up bow
01D1AC Musical symbol combining harmonic
01D1AD Musical symbol combining snap pizzicato
01D1AE Musical symbol pedal mark
01D1AF Musical symbol pedal up mark
01D1B0 Musical symbol half pedal mark
01D1B1 Musical symbol glissando up
01D1B2 Musical symbol glissando down
01D1B3 Musical symbol with fingernails
01D1B4 Musical symbol damp
01D1B5 Musical symbol damp all
01D1B6 Musical symbol maxima
01D1B7 Musical symbol longa
01D1B8 Musical symbol brevis
01D1B9 Musical symbol semibrevis white
01D1BA Musical symbol semibrevis black
01D1BB Musical symbol minima
01D1BC Musical symbol minima black
01D1BD Musical symbol semiminima white
01D1BE Musical symbol semiminima black
01D1BF Musical symbol fusa white
01D1C0 Musical symbol fusa black
01D1C1 Musical symbol longa perfecta rest
01D1C2 Musical symbol longa imperfecta rest
01D1C3 Musical symbol brevis rest
01D1C4 Musical symbol semibrevis rest
01D1C5 Musical symbol minima rest
01D1C6 Musical symbol semiminima rest
01D1C7 Musical symbol tempus perfectum cum prolatione perfecta
01D1C8 Musical symbol tempus perfectum cum prolatione imperfecta
01D1C9 Musical symbol tempus perfectum cum prolatione perfecta diminution-1
01D1CA Musical symbol tempus imperfectum cum prolatione perfecta
01D1CB Musical symbol tempus imperfectum cum prolatione imperfecta
01D1CC Musical symbol tempus imperfectum cum prolatione imperfecta diminution-1
01D1CD Musical symbol tempus imperfectum cum prolatione imperfecta diminution-2
01D1CE Musical symbol tempus imperfectum cum prolatione imperfecta diminution-3
01D1CF Musical symbol croix
01D1D0 Musical symbol gregorian c clef
01D1D1 Musical symbol gregorian f clef
01D1D2 Musical symbol square b
01D1D3 Musical symbol virga
01D1D4 Musical symbol podatus
01D1D5 Musical symbol clivis
01D1D6 Musical symbol scandicus
01D1D7 Musical symbol climacus
01D1D8 Musical symbol torculus
01D1D9 Musical symbol porrectus
01D1DA Musical symbol porrectus flexus
01D1DB Musical symbol scandicus flexus
01D1DC Musical symbol torculus resupinus
01D1DD Musical symbol pes subpunctis
01D1DE Musical symbol kievan c clef
01D1DF Musical symbol kievan end of piece
01D1E0 Musical symbol kievan final note
01D1E1 Musical symbol kievan recitative mark
01D1E2 Musical symbol kievan whole note
01D1E3 Musical symbol kievan half note
01D1E4 Musical symbol kievan quarter note stem down
01D1E5 Musical symbol kievan quarter note stem up
01D1E6 Musical symbol kievan eighth note stem down
01D1E7 Musical symbol kievan eighth note stem up
01D1E8 Musical symbol kievan flat sign
01D1E9 Musical symbol sori
01D1EA Musical symbol koron
01D200 Greek vocal notation symbol-1
01D201 Greek vocal notation symbol-2
01D202 Greek vocal notation symbol-3
01D203 Greek vocal notation symbol-4
01D204 Greek vocal notation symbol-5
01D205 Greek vocal notation symbol-6
01D206 Greek vocal notation symbol-7
01D207 Greek vocal notation symbol-8
01D208 Greek vocal notation symbol-9
01D209 Greek vocal notation symbol-10
01D20A Greek vocal notation symbol-11
01D20B Greek vocal notation symbol-12
01D20C Greek vocal notation symbol-13
01D20D Greek vocal notation symbol-14
01D20E Greek vocal notation symbol-15
01D20F Greek vocal notation symbol-16
01D210 Greek vocal notation symbol-17
01D211 Greek vocal notation symbol-18
01D212 Greek vocal notation symbol-19
01D213 Greek vocal notation symbol-20
01D214 Greek vocal notation symbol-21
01D215 Greek vocal notation symbol-22
01D216 Greek vocal notation symbol-23
01D217 Greek vocal notation symbol-24
01D218 Greek vocal notation symbol-50
01D219 Greek vocal notation symbol-51
01D21A Greek vocal notation symbol-52
01D21B Greek vocal notation symbol-53
01D21C Greek vocal notation symbol-54
01D21D Greek instrumental notation symbol-1
01D21E Greek instrumental notation symbol-2
01D21F Greek instrumental notation symbol-4
01D220 Greek instrumental notation symbol-5
01D221 Greek instrumental notation symbol-7
01D222 Greek instrumental notation symbol-8
01D223 Greek instrumental notation symbol-11
01D224 Greek instrumental notation symbol-12
01D225 Greek instrumental notation symbol-13
01D226 Greek instrumental notation symbol-14
01D227 Greek instrumental notation symbol-17
01D228 Greek instrumental notation symbol-18
01D229 Greek instrumental notation symbol-19
01D22A Greek instrumental notation symbol-23
01D22B Greek instrumental notation symbol-24
01D22C Greek instrumental notation symbol-25
01D22D Greek instrumental notation symbol-26
01D22E Greek instrumental notation symbol-27
01D22F Greek instrumental notation symbol-29
01D230 Greek instrumental notation symbol-30
01D231 Greek instrumental notation symbol-32
01D232 Greek instrumental notation symbol-36
01D233 Greek instrumental notation symbol-37
01D234 Greek instrumental notation symbol-38
01D235 Greek instrumental notation symbol-39
01D236 Greek instrumental notation symbol-40
01D237 Greek instrumental notation symbol-42
01D238 Greek instrumental notation symbol-43
01D239 Greek instrumental notation symbol-45
01D23A Greek instrumental notation symbol-47
01D23B Greek instrumental notation symbol-48
01D23C Greek instrumental notation symbol-49
01D23D Greek instrumental notation symbol-50
01D23E Greek instrumental notation symbol-51
01D23F Greek instrumental notation symbol-52
01D240 Greek instrumental notation symbol-53
01D241 Greek instrumental notation symbol-54
01D242 Combining greek musical triseme
01D243 Combining greek musical tetraseme
01D244 Combining greek musical pentaseme
01D245 Greek musical leimma
01D2E0 Mayan numeral zero
01D2E1 Mayan numeral one
01D2E2 Mayan numeral two
01D2E3 Mayan numeral three
01D2E4 Mayan numeral four
01D2E5 Mayan numeral five
01D2E6 Mayan numeral six
01D2E7 Mayan numeral seven
01D2E8 Mayan numeral eight
01D2E9 Mayan numeral nine
01D2EA Mayan numeral ten
01D2EB Mayan numeral eleven
01D2EC Mayan numeral twelve
01D2ED Mayan numeral thirteen
01D2EE Mayan numeral fourteen
01D2EF Mayan numeral fifteen
01D2F0 Mayan numeral sixteen
01D2F1 Mayan numeral seventeen
01D2F2 Mayan numeral eighteen
01D2F3 Mayan numeral nineteen
01D300 Monogram for earth
01D301 Digram for heavenly earth
01D302 Digram for human earth
01D303 Digram for earthly heaven
01D304 Digram for earthly human
01D305 Digram for earth
01D306 Tetragram for centre
01D307 Tetragram for full circle
01D308 Tetragram for mired
01D309 Tetragram for barrier
01D30A Tetragram for keeping small
01D30B Tetragram for contrariety
01D30C Tetragram for ascent
01D30D Tetragram for opposition
01D30E Tetragram for branching out
01D30F Tetragram for defectiveness or distortion
01D310 Tetragram for divergence
01D311 Tetragram for youthfulness
01D312 Tetragram for increase
01D313 Tetragram for penetration
01D314 Tetragram for reach
01D315 Tetragram for contact
01D316 Tetragram for holding back
01D317 Tetragram for waiting
01D318 Tetragram for following
01D319 Tetragram for advance
01D31A Tetragram for release
01D31B Tetragram for resistance
01D31C Tetragram for ease
01D31D Tetragram for joy
01D31E Tetragram for contention
01D31F Tetragram for endeavour
01D320 Tetragram for duties
01D321 Tetragram for change
01D322 Tetragram for decisiveness
01D323 Tetragram for bold resolution
";

pub const NAMES_68: &'static str = "01D324 Tetragram for packing
01D325 Tetragram for legion
01D326 Tetragram for closeness
01D327 Tetragram for kinship
01D328 Tetragram for gathering
01D329 Tetragram for strength
01D32A Tetragram for purity
01D32B Tetragram for fullness
01D32C Tetragram for residence
01D32D Tetragram for law or model
01D32E Tetragram for response
01D32F Tetragram for going to meet
01D330 Tetragram for encounters
01D331 Tetragram for stove
01D332 Tetragram for greatness
01D333 Tetragram for enlargement
01D334 Tetragram for pattern
01D335 Tetragram for ritual
01D336 Tetragram for flight
01D337 Tetragram for vastness or wasting
01D338 Tetragram for constancy
01D339 Tetragram for measure
01D33A Tetragram for eternity
01D33B Tetragram for unity
01D33C Tetragram for diminishment
01D33D Tetragram for closed mouth
01D33E Tetragram for guardedness
01D33F Tetragram for gathering in
01D340 Tetragram for massing
01D341 Tetragram for accumulation
01D342 Tetragram for embellishment
01D343 Tetragram for doubt
01D344 Tetragram for watch
01D345 Tetragram for sinking
01D346 Tetragram for inner
01D347 Tetragram for departure
01D348 Tetragram for darkening
01D349 Tetragram for dimming
01D34A Tetragram for exhaustion
01D34B Tetragram for severance
01D34C Tetragram for stoppage
01D34D Tetragram for hardness
01D34E Tetragram for completion
01D34F Tetragram for closure
01D350 Tetragram for failure
01D351 Tetragram for aggravation
01D352 Tetragram for compliance
01D353 Tetragram for on the verge
01D354 Tetragram for difficulties
01D355 Tetragram for labouring
01D356 Tetragram for fostering
01D360 Counting rod unit digit one
01D361 Counting rod unit digit two
01D362 Counting rod unit digit three
01D363 Counting rod unit digit four
01D364 Counting rod unit digit five
01D365 Counting rod unit digit six
01D366 Counting rod unit digit seven
01D367 Counting rod unit digit eight
01D368 Counting rod unit digit nine
01D369 Counting rod tens digit one
01D36A Counting rod tens digit two
01D36B Counting rod tens digit three
01D36C Counting rod tens digit four
01D36D Counting rod tens digit five
01D36E Counting rod tens digit six
01D36F Counting rod tens digit seven
01D370 Counting rod tens digit eight
01D371 Counting rod tens digit nine
01D372 Ideographic tally mark one
01D373 Ideographic tally mark two
01D374 Ideographic tally mark three
01D375 Ideographic tally mark four
01D376 Ideographic tally mark five
01D377 Tally mark one
01D378 Tally mark five
01D400 Mathematical bold capital a
01D401 Mathematical bold capital b
01D402 Mathematical bold capital c
01D403 Mathematical bold capital d
01D404 Mathematical bold capital e
01D405 Mathematical bold capital f
01D406 Mathematical bold capital g
01D407 Mathematical bold capital h
01D408 Mathematical bold capital i
01D409 Mathematical bold capital j
01D40A Mathematical bold capital k
01D40B Mathematical bold capital l
01D40C Mathematical bold capital m
01D40D Mathematical bold capital n
01D40E Mathematical bold capital o
01D40F Mathematical bold capital p
01D410 Mathematical bold capital q
01D411 Mathematical bold capital r
01D412 Mathematical bold capital s
01D413 Mathematical bold capital t
01D414 Mathematical bold capital u
01D415 Mathematical bold capital v
01D416 Mathematical bold capital w
01D417 Mathematical bold capital x
01D418 Mathematical bold capital y
01D419 Mathematical bold capital z
01D41A Mathematical bold small a
01D41B Mathematical bold small b
01D41C Mathematical bold small c
01D41D Mathematical bold small d
01D41E Mathematical bold small e
01D41F Mathematical bold small f
01D420 Mathematical bold small g
01D421 Mathematical bold small h
01D422 Mathematical bold small i
01D423 Mathematical bold small j
01D424 Mathematical bold small k
01D425 Mathematical bold small l
01D426 Mathematical bold small m
01D427 Mathematical bold small n
01D428 Mathematical bold small o
01D429 Mathematical bold small p
01D42A Mathematical bold small q
01D42B Mathematical bold small r
01D42C Mathematical bold small s
01D42D Mathematical bold small t
01D42E Mathematical bold small u
01D42F Mathematical bold small v
01D430 Mathematical bold small w
01D431 Mathematical bold small x
01D432 Mathematical bold small y
01D433 Mathematical bold small z
01D434 Mathematical italic capital a
01D435 Mathematical italic capital b
01D436 Mathematical italic capital c
01D437 Mathematical italic capital d
01D438 Mathematical italic capital e
01D439 Mathematical italic capital f
01D43A Mathematical italic capital g
01D43B Mathematical italic capital h
01D43C Mathematical italic capital i
01D43D Mathematical italic capital j
01D43E Mathematical italic capital k
01D43F Mathematical italic capital l
01D440 Mathematical italic capital m
01D441 Mathematical italic capital n
01D442 Mathematical italic capital o
01D443 Mathematical italic capital p
01D444 Mathematical italic capital q
01D445 Mathematical italic capital r
01D446 Mathematical italic capital s
01D447 Mathematical italic capital t
01D448 Mathematical italic capital u
01D449 Mathematical italic capital v
01D44A Mathematical italic capital w
01D44B Mathematical italic capital x
01D44C Mathematical italic capital y
01D44D Mathematical italic capital z
01D44E Mathematical italic small a
01D44F Mathematical italic small b
01D450 Mathematical italic small c
01D451 Mathematical italic small d
01D452 Mathematical italic small e
01D453 Mathematical italic small f
01D454 Mathematical italic small g
01D456 Mathematical italic small i
01D457 Mathematical italic small j
01D458 Mathematical italic small k
01D459 Mathematical italic small l
01D45A Mathematical italic small m
01D45B Mathematical italic small n
01D45C Mathematical italic small o
01D45D Mathematical italic small p
01D45E Mathematical italic small q
01D45F Mathematical italic small r
01D460 Mathematical italic small s
01D461 Mathematical italic small t
01D462 Mathematical italic small u
01D463 Mathematical italic small v
01D464 Mathematical italic small w
01D465 Mathematical italic small x
01D466 Mathematical italic small y
01D467 Mathematical italic small z
01D468 Mathematical bold italic capital a
01D469 Mathematical bold italic capital b
01D46A Mathematical bold italic capital c
01D46B Mathematical bold italic capital d
01D46C Mathematical bold italic capital e
01D46D Mathematical bold italic capital f
01D46E Mathematical bold italic capital g
01D46F Mathematical bold italic capital h
01D470 Mathematical bold italic capital i
01D471 Mathematical bold italic capital j
01D472 Mathematical bold italic capital k
01D473 Mathematical bold italic capital l
01D474 Mathematical bold italic capital m
01D475 Mathematical bold italic capital n
01D476 Mathematical bold italic capital o
01D477 Mathematical bold italic capital p
01D478 Mathematical bold italic capital q
01D479 Mathematical bold italic capital r
01D47A Mathematical bold italic capital s
01D47B Mathematical bold italic capital t
01D47C Mathematical bold italic capital u
01D47D Mathematical bold italic capital v
01D47E Mathematical bold italic capital w
01D47F Mathematical bold italic capital x
01D480 Mathematical bold italic capital y
01D481 Mathematical bold italic capital z
01D482 Mathematical bold italic small a
01D483 Mathematical bold italic small b
01D484 Mathematical bold italic small c
01D485 Mathematical bold italic small d
01D486 Mathematical bold italic small e
01D487 Mathematical bold italic small f
01D488 Mathematical bold italic small g
01D489 Mathematical bold italic small h
01D48A Mathematical bold italic small i
01D48B Mathematical bold italic small j
01D48C Mathematical bold italic small k
01D48D Mathematical bold italic small l
01D48E Mathematical bold italic small m
01D48F Mathematical bold italic small n
01D490 Mathematical bold italic small o
01D491 Mathematical bold italic small p
01D492 Mathematical bold italic small q
01D493 Mathematical bold italic small r
01D494 Mathematical bold italic small s
01D495 Mathematical bold italic small t
01D496 Mathematical bold italic small u
01D497 Mathematical bold italic small v
01D498 Mathematical bold italic small w
01D499 Mathematical bold italic small x
01D49A Mathematical bold italic small y
01D49B Mathematical bold italic small z
01D49C Mathematical script capital a
01D49E Mathematical script capital c
01D49F Mathematical script capital d
01D4A2 Mathematical script capital g
01D4A5 Mathematical script capital j
01D4A6 Mathematical script capital k
01D4A9 Mathematical script capital n
01D4AA Mathematical script capital o
01D4AB Mathematical script capital p
01D4AC Mathematical script capital q
01D4AE Mathematical script capital s
01D4AF Mathematical script capital t
01D4B0 Mathematical script capital u
01D4B1 Mathematical script capital v
01D4B2 Mathematical script capital w
01D4B3 Mathematical script capital x
01D4B4 Mathematical script capital y
01D4B5 Mathematical script capital z
01D4B6 Mathematical script small a
01D4B7 Mathematical script small b
01D4B8 Mathematical script small c
01D4B9 Mathematical script small d
01D4BB Mathematical script small f
01D4BD Mathematical script small h
01D4BE Mathematical script small i
01D4BF Mathematical script small j
01D4C0 Mathematical script small k
01D4C1 Mathematical script small l
01D4C2 Mathematical script small m
01D4C3 Mathematical script small n
01D4C5 Mathematical script small p
01D4C6 Mathematical script small q
01D4C7 Mathematical script small r
01D4C8 Mathematical script small s
01D4C9 Mathematical script small t
01D4CA Mathematical script small u
01D4CB Mathematical script small v
01D4CC Mathematical script small w
01D4CD Mathematical script small x
01D4CE Mathematical script small y
01D4CF Mathematical script small z
01D4D0 Mathematical bold script capital a
01D4D1 Mathematical bold script capital b
01D4D2 Mathematical bold script capital c
01D4D3 Mathematical bold script capital d
01D4D4 Mathematical bold script capital e
01D4D5 Mathematical bold script capital f
01D4D6 Mathematical bold script capital g
01D4D7 Mathematical bold script capital h
01D4D8 Mathematical bold script capital i
01D4D9 Mathematical bold script capital j
01D4DA Mathematical bold script capital k
01D4DB Mathematical bold script capital l
01D4DC Mathematical bold script capital m
01D4DD Mathematical bold script capital n
01D4DE Mathematical bold script capital o
01D4DF Mathematical bold script capital p
01D4E0 Mathematical bold script capital q
01D4E1 Mathematical bold script capital r
01D4E2 Mathematical bold script capital s
01D4E3 Mathematical bold script capital t
01D4E4 Mathematical bold script capital u
01D4E5 Mathematical bold script capital v
01D4E6 Mathematical bold script capital w
01D4E7 Mathematical bold script capital x
01D4E8 Mathematical bold script capital y
01D4E9 Mathematical bold script capital z
01D4EA Mathematical bold script small a
01D4EB Mathematical bold script small b
01D4EC Mathematical bold script small c
01D4ED Mathematical bold script small d
01D4EE Mathematical bold script small e
01D4EF Mathematical bold script small f
01D4F0 Mathematical bold script small g
01D4F1 Mathematical bold script small h
01D4F2 Mathematical bold script small i
01D4F3 Mathematical bold script small j
01D4F4 Mathematical bold script small k
01D4F5 Mathematical bold script small l
01D4F6 Mathematical bold script small m
01D4F7 Mathematical bold script small n
01D4F8 Mathematical bold script small o
01D4F9 Mathematical bold script small p
01D4FA Mathematical bold script small q
01D4FB Mathematical bold script small r
01D4FC Mathematical bold script small s
01D4FD Mathematical bold script small t
01D4FE Mathematical bold script small u
01D4FF Mathematical bold script small v
01D500 Mathematical bold script small w
01D501 Mathematical bold script small x
01D502 Mathematical bold script small y
01D503 Mathematical bold script small z
01D504 Mathematical fraktur capital a
01D505 Mathematical fraktur capital b
01D507 Mathematical fraktur capital d
01D508 Mathematical fraktur capital e
01D509 Mathematical fraktur capital f
01D50A Mathematical fraktur capital g
01D50D Mathematical fraktur capital j
01D50E Mathematical fraktur capital k
01D50F Mathematical fraktur capital l
01D510 Mathematical fraktur capital m
01D511 Mathematical fraktur capital n
01D512 Mathematical fraktur capital o
01D513 Mathematical fraktur capital p
01D514 Mathematical fraktur capital q
01D516 Mathematical fraktur capital s
01D517 Mathematical fraktur capital t
01D518 Mathematical fraktur capital u
01D519 Mathematical fraktur capital v
01D51A Mathematical fraktur capital w
01D51B Mathematical fraktur capital x
01D51C Mathematical fraktur capital y
01D51E Mathematical fraktur small a
01D51F Mathematical fraktur small b
01D520 Mathematical fraktur small c
01D521 Mathematical fraktur small d
01D522 Mathematical fraktur small e
01D523 Mathematical fraktur small f
01D524 Mathematical fraktur small g
01D525 Mathematical fraktur small h
01D526 Mathematical fraktur small i
01D527 Mathematical fraktur small j
01D528 Mathematical fraktur small k
01D529 Mathematical fraktur small l
01D52A Mathematical fraktur small m
01D52B Mathematical fraktur small n
01D52C Mathematical fraktur small o
01D52D Mathematical fraktur small p
01D52E Mathematical fraktur small q
01D52F Mathematical fraktur small r
01D530 Mathematical fraktur small s
01D531 Mathematical fraktur small t
01D532 Mathematical fraktur small u
01D533 Mathematical fraktur small v
01D534 Mathematical fraktur small w
01D535 Mathematical fraktur small x
01D536 Mathematical fraktur small y
01D537 Mathematical fraktur small z
01D538 Mathematical double-struck capital a
01D539 Mathematical double-struck capital b
01D53B Mathematical double-struck capital d
01D53C Mathematical double-struck capital e
01D53D Mathematical double-struck capital f
01D53E Mathematical double-struck capital g
01D540 Mathematical double-struck capital i
01D541 Mathematical double-struck capital j
01D542 Mathematical double-struck capital k
01D543 Mathematical double-struck capital l
01D544 Mathematical double-struck capital m
";

pub const NAMES_69: &'static str = "01D546 Mathematical double-struck capital o
01D54A Mathematical double-struck capital s
01D54B Mathematical double-struck capital t
01D54C Mathematical double-struck capital u
01D54D Mathematical double-struck capital v
01D54E Mathematical double-struck capital w
01D54F Mathematical double-struck capital x
01D550 Mathematical double-struck capital y
01D552 Mathematical double-struck small a
01D553 Mathematical double-struck small b
01D554 Mathematical double-struck small c
01D555 Mathematical double-struck small d
01D556 Mathematical double-struck small e
01D557 Mathematical double-struck small f
01D558 Mathematical double-struck small g
01D559 Mathematical double-struck small h
01D55A Mathematical double-struck small i
01D55B Mathematical double-struck small j
01D55C Mathematical double-struck small k
01D55D Mathematical double-struck small l
01D55E Mathematical double-struck small m
01D55F Mathematical double-struck small n
01D560 Mathematical double-struck small o
01D561 Mathematical double-struck small p
01D562 Mathematical double-struck small q
01D563 Mathematical double-struck small r
01D564 Mathematical double-struck small s
01D565 Mathematical double-struck small t
01D566 Mathematical double-struck small u
01D567 Mathematical double-struck small v
01D568 Mathematical double-struck small w
01D569 Mathematical double-struck small x
01D56A Mathematical double-struck small y
01D56B Mathematical double-struck small z
01D56C Mathematical bold fraktur capital a
01D56D Mathematical bold fraktur capital b
01D56E Mathematical bold fraktur capital c
01D56F Mathematical bold fraktur capital d
01D570 Mathematical bold fraktur capital e
01D571 Mathematical bold fraktur capital f
01D572 Mathematical bold fraktur capital g
01D573 Mathematical bold fraktur capital h
01D574 Mathematical bold fraktur capital i
01D575 Mathematical bold fraktur capital j
01D576 Mathematical bold fraktur capital k
01D577 Mathematical bold fraktur capital l
01D578 Mathematical bold fraktur capital m
01D579 Mathematical bold fraktur capital n
01D57A Mathematical bold fraktur capital o
01D57B Mathematical bold fraktur capital p
01D57C Mathematical bold fraktur capital q
01D57D Mathematical bold fraktur capital r
01D57E Mathematical bold fraktur capital s
01D57F Mathematical bold fraktur capital t
01D580 Mathematical bold fraktur capital u
01D581 Mathematical bold fraktur capital v
01D582 Mathematical bold fraktur capital w
01D583 Mathematical bold fraktur capital x
01D584 Mathematical bold fraktur capital y
01D585 Mathematical bold fraktur capital z
01D586 Mathematical bold fraktur small a
01D587 Mathematical bold fraktur small b
01D588 Mathematical bold fraktur small c
01D589 Mathematical bold fraktur small d
01D58A Mathematical bold fraktur small e
01D58B Mathematical bold fraktur small f
01D58C Mathematical bold fraktur small g
01D58D Mathematical bold fraktur small h
01D58E Mathematical bold fraktur small i
01D58F Mathematical bold fraktur small j
01D590 Mathematical bold fraktur small k
01D591 Mathematical bold fraktur small l
01D592 Mathematical bold fraktur small m
01D593 Mathematical bold fraktur small n
01D594 Mathematical bold fraktur small o
01D595 Mathematical bold fraktur small p
01D596 Mathematical bold fraktur small q
01D597 Mathematical bold fraktur small r
01D598 Mathematical bold fraktur small s
01D599 Mathematical bold fraktur small t
01D59A Mathematical bold fraktur small u
01D59B Mathematical bold fraktur small v
01D59C Mathematical bold fraktur small w
01D59D Mathematical bold fraktur small x
01D59E Mathematical bold fraktur small y
01D59F Mathematical bold fraktur small z
01D5A0 Mathematical sans-serif capital a
01D5A1 Mathematical sans-serif capital b
01D5A2 Mathematical sans-serif capital c
01D5A3 Mathematical sans-serif capital d
01D5A4 Mathematical sans-serif capital e
01D5A5 Mathematical sans-serif capital f
01D5A6 Mathematical sans-serif capital g
01D5A7 Mathematical sans-serif capital h
01D5A8 Mathematical sans-serif capital i
01D5A9 Mathematical sans-serif capital j
01D5AA Mathematical sans-serif capital k
01D5AB Mathematical sans-serif capital l
01D5AC Mathematical sans-serif capital m
01D5AD Mathematical sans-serif capital n
01D5AE Mathematical sans-serif capital o
01D5AF Mathematical sans-serif capital p
01D5B0 Mathematical sans-serif capital q
01D5B1 Mathematical sans-serif capital r
01D5B2 Mathematical sans-serif capital s
01D5B3 Mathematical sans-serif capital t
01D5B4 Mathematical sans-serif capital u
01D5B5 Mathematical sans-serif capital v
01D5B6 Mathematical sans-serif capital w
01D5B7 Mathematical sans-serif capital x
01D5B8 Mathematical sans-serif capital y
01D5B9 Mathematical sans-serif capital z
01D5BA Mathematical sans-serif small a
01D5BB Mathematical sans-serif small b
01D5BC Mathematical sans-serif small c
01D5BD Mathematical sans-serif small d
01D5BE Mathematical sans-serif small e
01D5BF Mathematical sans-serif small f
01D5C0 Mathematical sans-serif small g
01D5C1 Mathematical sans-serif small h
01D5C2 Mathematical sans-serif small i
01D5C3 Mathematical sans-serif small j
01D5C4 Mathematical sans-serif small k
01D5C5 Mathematical sans-serif small l
01D5C6 Mathematical sans-serif small m
01D5C7 Mathematical sans-serif small n
01D5C8 Mathematical sans-serif small o
01D5C9 Mathematical sans-serif small p
01D5CA Mathematical sans-serif small q
01D5CB Mathematical sans-serif small r
01D5CC Mathematical sans-serif small s
01D5CD Mathematical sans-serif small t
01D5CE Mathematical sans-serif small u
01D5CF Mathematical sans-serif small v
01D5D0 Mathematical sans-serif small w
01D5D1 Mathematical sans-serif small x
01D5D2 Mathematical sans-serif small y
01D5D3 Mathematical sans-serif small z
01D5D4 Mathematical sans-serif bold capital a
01D5D5 Mathematical sans-serif bold capital b
01D5D6 Mathematical sans-serif bold capital c
01D5D7 Mathematical sans-serif bold capital d
01D5D8 Mathematical sans-serif bold capital e
01D5D9 Mathematical sans-serif bold capital f
01D5DA Mathematical sans-serif bold capital g
01D5DB Mathematical sans-serif bold capital h
01D5DC Mathematical sans-serif bold capital i
01D5DD Mathematical sans-serif bold capital j
01D5DE Mathematical sans-serif bold capital k
01D5DF Mathematical sans-serif bold capital l
01D5E0 Mathematical sans-serif bold capital m
01D5E1 Mathematical sans-serif bold capital n
01D5E2 Mathematical sans-serif bold capital o
01D5E3 Mathematical sans-serif bold capital p
01D5E4 Mathematical sans-serif bold capital q
01D5E5 Mathematical sans-serif bold capital r
01D5E6 Mathematical sans-serif bold capital s
01D5E7 Mathematical sans-serif bold capital t
01D5E8 Mathematical sans-serif bold capital u
01D5E9 Mathematical sans-serif bold capital v
01D5EA Mathematical sans-serif bold capital w
01D5EB Mathematical sans-serif bold capital x
01D5EC Mathematical sans-serif bold capital y
01D5ED Mathematical sans-serif bold capital z
01D5EE Mathematical sans-serif bold small a
01D5EF Mathematical sans-serif bold small b
01D5F0 Mathematical sans-serif bold small c
01D5F1 Mathematical sans-serif bold small d
01D5F2 Mathematical sans-serif bold small e
01D5F3 Mathematical sans-serif bold small f
01D5F4 Mathematical sans-serif bold small g
01D5F5 Mathematical sans-serif bold small h
01D5F6 Mathematical sans-serif bold small i
01D5F7 Mathematical sans-serif bold small j
01D5F8 Mathematical sans-serif bold small k
01D5F9 Mathematical sans-serif bold small l
01D5FA Mathematical sans-serif bold small m
01D5FB Mathematical sans-serif bold small n
01D5FC Mathematical sans-serif bold small o
01D5FD Mathematical sans-serif bold small p
01D5FE Mathematical sans-serif bold small q
01D5FF Mathematical sans-serif bold small r
01D600 Mathematical sans-serif bold small s
01D601 Mathematical sans-serif bold small t
01D602 Mathematical sans-serif bold small u
01D603 Mathematical sans-serif bold small v
01D604 Mathematical sans-serif bold small w
01D605 Mathematical sans-serif bold small x
01D606 Mathematical sans-serif bold small y
01D607 Mathematical sans-serif bold small z
01D608 Mathematical sans-serif italic capital a
01D609 Mathematical sans-serif italic capital b
01D60A Mathematical sans-serif italic capital c
01D60B Mathematical sans-serif italic capital d
01D60C Mathematical sans-serif italic capital e
01D60D Mathematical sans-serif italic capital f
01D60E Mathematical sans-serif italic capital g
01D60F Mathematical sans-serif italic capital h
01D610 Mathematical sans-serif italic capital i
01D611 Mathematical sans-serif italic capital j
01D612 Mathematical sans-serif italic capital k
01D613 Mathematical sans-serif italic capital l
01D614 Mathematical sans-serif italic capital m
01D615 Mathematical sans-serif italic capital n
01D616 Mathematical sans-serif italic capital o
01D617 Mathematical sans-serif italic capital p
01D618 Mathematical sans-serif italic capital q
01D619 Mathematical sans-serif italic capital r
01D61A Mathematical sans-serif italic capital s
01D61B Mathematical sans-serif italic capital t
01D61C Mathematical sans-serif italic capital u
01D61D Mathematical sans-serif italic capital v
01D61E Mathematical sans-serif italic capital w
01D61F Mathematical sans-serif italic capital x
01D620 Mathematical sans-serif italic capital y
01D621 Mathematical sans-serif italic capital z
01D622 Mathematical sans-serif italic small a
01D623 Mathematical sans-serif italic small b
01D624 Mathematical sans-serif italic small c
01D625 Mathematical sans-serif italic small d
01D626 Mathematical sans-serif italic small e
01D627 Mathematical sans-serif italic small f
01D628 Mathematical sans-serif italic small g
01D629 Mathematical sans-serif italic small h
01D62A Mathematical sans-serif italic small i
01D62B Mathematical sans-serif italic small j
01D62C Mathematical sans-serif italic small k
01D62D Mathematical sans-serif italic small l
01D62E Mathematical sans-serif italic small m
01D62F Mathematical sans-serif italic small n
01D630 Mathematical sans-serif italic small o
01D631 Mathematical sans-serif italic small p
01D632 Mathematical sans-serif italic small q
01D633 Mathematical sans-serif italic small r
01D634 Mathematical sans-serif italic small s
01D635 Mathematical sans-serif italic small t
01D636 Mathematical sans-serif italic small u
01D637 Mathematical sans-serif italic small v
01D638 Mathematical sans-serif italic small w
01D639 Mathematical sans-serif italic small x
01D63A Mathematical sans-serif italic small y
01D63B Mathematical sans-serif italic small z
01D63C Mathematical sans-serif bold italic capital a
01D63D Mathematical sans-serif bold italic capital b
01D63E Mathematical sans-serif bold italic capital c
01D63F Mathematical sans-serif bold italic capital d
01D640 Mathematical sans-serif bold italic capital e
01D641 Mathematical sans-serif bold italic capital f
01D642 Mathematical sans-serif bold italic capital g
01D643 Mathematical sans-serif bold italic capital h
01D644 Mathematical sans-serif bold italic capital i
01D645 Mathematical sans-serif bold italic capital j
01D646 Mathematical sans-serif bold italic capital k
01D647 Mathematical sans-serif bold italic capital l
01D648 Mathematical sans-serif bold italic capital m
01D649 Mathematical sans-serif bold italic capital n
01D64A Mathematical sans-serif bold italic capital o
01D64B Mathematical sans-serif bold italic capital p
01D64C Mathematical sans-serif bold italic capital q
01D64D Mathematical sans-serif bold italic capital r
01D64E Mathematical sans-serif bold italic capital s
01D64F Mathematical sans-serif bold italic capital t
01D650 Mathematical sans-serif bold italic capital u
01D651 Mathematical sans-serif bold italic capital v
01D652 Mathematical sans-serif bold italic capital w
01D653 Mathematical sans-serif bold italic capital x
01D654 Mathematical sans-serif bold italic capital y
01D655 Mathematical sans-serif bold italic capital z
01D656 Mathematical sans-serif bold italic small a
01D657 Mathematical sans-serif bold italic small b
01D658 Mathematical sans-serif bold italic small c
01D659 Mathematical sans-serif bold italic small d
01D65A Mathematical sans-serif bold italic small e
01D65B Mathematical sans-serif bold italic small f
01D65C Mathematical sans-serif bold italic small g
01D65D Mathematical sans-serif bold italic small h
01D65E Mathematical sans-serif bold italic small i
01D65F Mathematical sans-serif bold italic small j
01D660 Mathematical sans-serif bold italic small k
01D661 Mathematical sans-serif bold italic small l
01D662 Mathematical sans-serif bold italic small m
01D663 Mathematical sans-serif bold italic small n
01D664 Mathematical sans-serif bold italic small o
01D665 Mathematical sans-serif bold italic small p
01D666 Mathematical sans-serif bold italic small q
01D667 Mathematical sans-serif bold italic small r
01D668 Mathematical sans-serif bold italic small s
01D669 Mathematical sans-serif bold italic small t
01D66A Mathematical sans-serif bold italic small u
01D66B Mathematical sans-serif bold italic small v
01D66C Mathematical sans-serif bold italic small w
01D66D Mathematical sans-serif bold italic small x
01D66E Mathematical sans-serif bold italic small y
01D66F Mathematical sans-serif bold italic small z
01D670 Mathematical monospace capital a
01D671 Mathematical monospace capital b
01D672 Mathematical monospace capital c
01D673 Mathematical monospace capital d
01D674 Mathematical monospace capital e
01D675 Mathematical monospace capital f
01D676 Mathematical monospace capital g
01D677 Mathematical monospace capital h
01D678 Mathematical monospace capital i
01D679 Mathematical monospace capital j
01D67A Mathematical monospace capital k
01D67B Mathematical monospace capital l
01D67C Mathematical monospace capital m
01D67D Mathematical monospace capital n
01D67E Mathematical monospace capital o
01D67F Mathematical monospace capital p
01D680 Mathematical monospace capital q
01D681 Mathematical monospace capital r
01D682 Mathematical monospace capital s
01D683 Mathematical monospace capital t
";

pub const NAMES_70: &'static str = "01D684 Mathematical monospace capital u
01D685 Mathematical monospace capital v
01D686 Mathematical monospace capital w
01D687 Mathematical monospace capital x
01D688 Mathematical monospace capital y
01D689 Mathematical monospace capital z
01D68A Mathematical monospace small a
01D68B Mathematical monospace small b
01D68C Mathematical monospace small c
01D68D Mathematical monospace small d
01D68E Mathematical monospace small e
01D68F Mathematical monospace small f
01D690 Mathematical monospace small g
01D691 Mathematical monospace small h
01D692 Mathematical monospace small i
01D693 Mathematical monospace small j
01D694 Mathematical monospace small k
01D695 Mathematical monospace small l
01D696 Mathematical monospace small m
01D697 Mathematical monospace small n
01D698 Mathematical monospace small o
01D699 Mathematical monospace small p
01D69A Mathematical monospace small q
01D69B Mathematical monospace small r
01D69C Mathematical monospace small s
01D69D Mathematical monospace small t
01D69E Mathematical monospace small u
01D69F Mathematical monospace small v
01D6A0 Mathematical monospace small w
01D6A1 Mathematical monospace small x
01D6A2 Mathematical monospace small y
01D6A3 Mathematical monospace small z
01D6A4 Mathematical italic small dotless i
01D6A5 Mathematical italic small dotless j
01D6A8 Mathematical bold capital alpha
01D6A9 Mathematical bold capital beta
01D6AA Mathematical bold capital gamma
01D6AB Mathematical bold capital delta
01D6AC Mathematical bold capital epsilon
01D6AD Mathematical bold capital zeta
01D6AE Mathematical bold capital eta
01D6AF Mathematical bold capital theta
01D6B0 Mathematical bold capital iota
01D6B1 Mathematical bold capital kappa
01D6B2 Mathematical bold capital lamda
01D6B3 Mathematical bold capital mu
01D6B4 Mathematical bold capital nu
01D6B5 Mathematical bold capital xi
01D6B6 Mathematical bold capital omicron
01D6B7 Mathematical bold capital pi
01D6B8 Mathematical bold capital rho
01D6B9 Mathematical bold capital theta symbol
01D6BA Mathematical bold capital sigma
01D6BB Mathematical bold capital tau
01D6BC Mathematical bold capital upsilon
01D6BD Mathematical bold capital phi
01D6BE Mathematical bold capital chi
01D6BF Mathematical bold capital psi
01D6C0 Mathematical bold capital omega
01D6C1 Mathematical bold nabla
01D6C2 Mathematical bold small alpha
01D6C3 Mathematical bold small beta
01D6C4 Mathematical bold small gamma
01D6C5 Mathematical bold small delta
01D6C6 Mathematical bold small epsilon
01D6C7 Mathematical bold small zeta
01D6C8 Mathematical bold small eta
01D6C9 Mathematical bold small theta
01D6CA Mathematical bold small iota
01D6CB Mathematical bold small kappa
01D6CC Mathematical bold small lamda
01D6CD Mathematical bold small mu
01D6CE Mathematical bold small nu
01D6CF Mathematical bold small xi
01D6D0 Mathematical bold small omicron
01D6D1 Mathematical bold small pi
01D6D2 Mathematical bold small rho
01D6D3 Mathematical bold small final sigma
01D6D4 Mathematical bold small sigma
01D6D5 Mathematical bold small tau
01D6D6 Mathematical bold small upsilon
01D6D7 Mathematical bold small phi
01D6D8 Mathematical bold small chi
01D6D9 Mathematical bold small psi
01D6DA Mathematical bold small omega
01D6DB Mathematical bold partial differential
01D6DC Mathematical bold epsilon symbol
01D6DD Mathematical bold theta symbol
01D6DE Mathematical bold kappa symbol
01D6DF Mathematical bold phi symbol
01D6E0 Mathematical bold rho symbol
01D6E1 Mathematical bold pi symbol
01D6E2 Mathematical italic capital alpha
01D6E3 Mathematical italic capital beta
01D6E4 Mathematical italic capital gamma
01D6E5 Mathematical italic capital delta
01D6E6 Mathematical italic capital epsilon
01D6E7 Mathematical italic capital zeta
01D6E8 Mathematical italic capital eta
01D6E9 Mathematical italic capital theta
01D6EA Mathematical italic capital iota
01D6EB Mathematical italic capital kappa
01D6EC Mathematical italic capital lamda
01D6ED Mathematical italic capital mu
01D6EE Mathematical italic capital nu
01D6EF Mathematical italic capital xi
01D6F0 Mathematical italic capital omicron
01D6F1 Mathematical italic capital pi
01D6F2 Mathematical italic capital rho
01D6F3 Mathematical italic capital theta symbol
01D6F4 Mathematical italic capital sigma
01D6F5 Mathematical italic capital tau
01D6F6 Mathematical italic capital upsilon
01D6F7 Mathematical italic capital phi
01D6F8 Mathematical italic capital chi
01D6F9 Mathematical italic capital psi
01D6FA Mathematical italic capital omega
01D6FB Mathematical italic nabla
01D6FC Mathematical italic small alpha
01D6FD Mathematical italic small beta
01D6FE Mathematical italic small gamma
01D6FF Mathematical italic small delta
01D700 Mathematical italic small epsilon
01D701 Mathematical italic small zeta
01D702 Mathematical italic small eta
01D703 Mathematical italic small theta
01D704 Mathematical italic small iota
01D705 Mathematical italic small kappa
01D706 Mathematical italic small lamda
01D707 Mathematical italic small mu
01D708 Mathematical italic small nu
01D709 Mathematical italic small xi
01D70A Mathematical italic small omicron
01D70B Mathematical italic small pi
01D70C Mathematical italic small rho
01D70D Mathematical italic small final sigma
01D70E Mathematical italic small sigma
01D70F Mathematical italic small tau
01D710 Mathematical italic small upsilon
01D711 Mathematical italic small phi
01D712 Mathematical italic small chi
01D713 Mathematical italic small psi
01D714 Mathematical italic small omega
01D715 Mathematical italic partial differential
01D716 Mathematical italic epsilon symbol
01D717 Mathematical italic theta symbol
01D718 Mathematical italic kappa symbol
01D719 Mathematical italic phi symbol
01D71A Mathematical italic rho symbol
01D71B Mathematical italic pi symbol
01D71C Mathematical bold italic capital alpha
01D71D Mathematical bold italic capital beta
01D71E Mathematical bold italic capital gamma
01D71F Mathematical bold italic capital delta
01D720 Mathematical bold italic capital epsilon
01D721 Mathematical bold italic capital zeta
01D722 Mathematical bold italic capital eta
01D723 Mathematical bold italic capital theta
01D724 Mathematical bold italic capital iota
01D725 Mathematical bold italic capital kappa
01D726 Mathematical bold italic capital lamda
01D727 Mathematical bold italic capital mu
01D728 Mathematical bold italic capital nu
01D729 Mathematical bold italic capital xi
01D72A Mathematical bold italic capital omicron
01D72B Mathematical bold italic capital pi
01D72C Mathematical bold italic capital rho
01D72D Mathematical bold italic capital theta symbol
01D72E Mathematical bold italic capital sigma
01D72F Mathematical bold italic capital tau
01D730 Mathematical bold italic capital upsilon
01D731 Mathematical bold italic capital phi
01D732 Mathematical bold italic capital chi
01D733 Mathematical bold italic capital psi
01D734 Mathematical bold italic capital omega
01D735 Mathematical bold italic nabla
01D736 Mathematical bold italic small alpha
01D737 Mathematical bold italic small beta
01D738 Mathematical bold italic small gamma
01D739 Mathematical bold italic small delta
01D73A Mathematical bold italic small epsilon
01D73B Mathematical bold italic small zeta
01D73C Mathematical bold italic small eta
01D73D Mathematical bold italic small theta
01D73E Mathematical bold italic small iota
01D73F Mathematical bold italic small kappa
01D740 Mathematical bold italic small lamda
01D741 Mathematical bold italic small mu
01D742 Mathematical bold italic small nu
01D743 Mathematical bold italic small xi
01D744 Mathematical bold italic small omicron
01D745 Mathematical bold italic small pi
01D746 Mathematical bold italic small rho
01D747 Mathematical bold italic small final sigma
01D748 Mathematical bold italic small sigma
01D749 Mathematical bold italic small tau
01D74A Mathematical bold italic small upsilon
01D74B Mathematical bold italic small phi
01D74C Mathematical bold italic small chi
01D74D Mathematical bold italic small psi
01D74E Mathematical bold italic small omega
01D74F Mathematical bold italic partial differential
01D750 Mathematical bold italic epsilon symbol
01D751 Mathematical bold italic theta symbol
01D752 Mathematical bold italic kappa symbol
01D753 Mathematical bold italic phi symbol
01D754 Mathematical bold italic rho symbol
01D755 Mathematical bold italic pi symbol
01D756 Mathematical sans-serif bold capital alpha
01D757 Mathematical sans-serif bold capital beta
01D758 Mathematical sans-serif bold capital gamma
01D759 Mathematical sans-serif bold capital delta
01D75A Mathematical sans-serif bold capital epsilon
01D75B Mathematical sans-serif bold capital zeta
01D75C Mathematical sans-serif bold capital eta
01D75D Mathematical sans-serif bold capital theta
01D75E Mathematical sans-serif bold capital iota
01D75F Mathematical sans-serif bold capital kappa
01D760 Mathematical sans-serif bold capital lamda
01D761 Mathematical sans-serif bold capital mu
01D762 Mathematical sans-serif bold capital nu
01D763 Mathematical sans-serif bold capital xi
01D764 Mathematical sans-serif bold capital omicron
01D765 Mathematical sans-serif bold capital pi
01D766 Mathematical sans-serif bold capital rho
01D767 Mathematical sans-serif bold capital theta symbol
01D768 Mathematical sans-serif bold capital sigma
01D769 Mathematical sans-serif bold capital tau
01D76A Mathematical sans-serif bold capital upsilon
01D76B Mathematical sans-serif bold capital phi
01D76C Mathematical sans-serif bold capital chi
01D76D Mathematical sans-serif bold capital psi
01D76E Mathematical sans-serif bold capital omega
01D76F Mathematical sans-serif bold nabla
01D770 Mathematical sans-serif bold small alpha
01D771 Mathematical sans-serif bold small beta
01D772 Mathematical sans-serif bold small gamma
01D773 Mathematical sans-serif bold small delta
01D774 Mathematical sans-serif bold small epsilon
01D775 Mathematical sans-serif bold small zeta
01D776 Mathematical sans-serif bold small eta
01D777 Mathematical sans-serif bold small theta
01D778 Mathematical sans-serif bold small iota
01D779 Mathematical sans-serif bold small kappa
01D77A Mathematical sans-serif bold small lamda
01D77B Mathematical sans-serif bold small mu
01D77C Mathematical sans-serif bold small nu
01D77D Mathematical sans-serif bold small xi
01D77E Mathematical sans-serif bold small omicron
01D77F Mathematical sans-serif bold small pi
01D780 Mathematical sans-serif bold small rho
01D781 Mathematical sans-serif bold small final sigma
01D782 Mathematical sans-serif bold small sigma
01D783 Mathematical sans-serif bold small tau
01D784 Mathematical sans-serif bold small upsilon
01D785 Mathematical sans-serif bold small phi
01D786 Mathematical sans-serif bold small chi
01D787 Mathematical sans-serif bold small psi
01D788 Mathematical sans-serif bold small omega
01D789 Mathematical sans-serif bold partial differential
01D78A Mathematical sans-serif bold epsilon symbol
01D78B Mathematical sans-serif bold theta symbol
01D78C Mathematical sans-serif bold kappa symbol
01D78D Mathematical sans-serif bold phi symbol
01D78E Mathematical sans-serif bold rho symbol
01D78F Mathematical sans-serif bold pi symbol
01D790 Mathematical sans-serif bold italic capital alpha
01D791 Mathematical sans-serif bold italic capital beta
01D792 Mathematical sans-serif bold italic capital gamma
01D793 Mathematical sans-serif bold italic capital delta
01D794 Mathematical sans-serif bold italic capital epsilon
01D795 Mathematical sans-serif bold italic capital zeta
01D796 Mathematical sans-serif bold italic capital eta
01D797 Mathematical sans-serif bold italic capital theta
01D798 Mathematical sans-serif bold italic capital iota
01D799 Mathematical sans-serif bold italic capital kappa
01D79A Mathematical sans-serif bold italic capital lamda
01D79B Mathematical sans-serif bold italic capital mu
01D79C Mathematical sans-serif bold italic capital nu
01D79D Mathematical sans-serif bold italic capital xi
01D79E Mathematical sans-serif bold italic capital omicron
01D79F Mathematical sans-serif bold italic capital pi
01D7A0 Mathematical sans-serif bold italic capital rho
01D7A1 Mathematical sans-serif bold italic capital theta symbol
01D7A2 Mathematical sans-serif bold italic capital sigma
01D7A3 Mathematical sans-serif bold italic capital tau
01D7A4 Mathematical sans-serif bold italic capital upsilon
01D7A5 Mathematical sans-serif bold italic capital phi
01D7A6 Mathematical sans-serif bold italic capital chi
01D7A7 Mathematical sans-serif bold italic capital psi
01D7A8 Mathematical sans-serif bold italic capital omega
01D7A9 Mathematical sans-serif bold italic nabla
01D7AA Mathematical sans-serif bold italic small alpha
01D7AB Mathematical sans-serif bold italic small beta
01D7AC Mathematical sans-serif bold italic small gamma
01D7AD Mathematical sans-serif bold italic small delta
01D7AE Mathematical sans-serif bold italic small epsilon
01D7AF Mathematical sans-serif bold italic small zeta
01D7B0 Mathematical sans-serif bold italic small eta
01D7B1 Mathematical sans-serif bold italic small theta
01D7B2 Mathematical sans-serif bold italic small iota
01D7B3 Mathematical sans-serif bold italic small kappa
01D7B4 Mathematical sans-serif bold italic small lamda
01D7B5 Mathematical sans-serif bold italic small mu
01D7B6 Mathematical sans-serif bold italic small nu
01D7B7 Mathematical sans-serif bold italic small xi
01D7B8 Mathematical sans-serif bold italic small omicron
01D7B9 Mathematical sans-serif bold italic small pi
01D7BA Mathematical sans-serif bold italic small rho
01D7BB Mathematical sans-serif bold italic small final sigma
01D7BC Mathematical sans-serif bold italic small sigma
01D7BD Mathematical sans-serif bold italic small tau
01D7BE Mathematical sans-serif bold italic small upsilon
01D7BF Mathematical sans-serif bold italic small phi
01D7C0 Mathematical sans-serif bold italic small chi
01D7C1 Mathematical sans-serif bold italic small psi
01D7C2 Mathematical sans-serif bold italic small omega
";

pub const NAMES_71: &'static str = "01D7C3 Mathematical sans-serif bold italic partial differential
01D7C4 Mathematical sans-serif bold italic epsilon symbol
01D7C5 Mathematical sans-serif bold italic theta symbol
01D7C6 Mathematical sans-serif bold italic kappa symbol
01D7C7 Mathematical sans-serif bold italic phi symbol
01D7C8 Mathematical sans-serif bold italic rho symbol
01D7C9 Mathematical sans-serif bold italic pi symbol
01D7CA Mathematical bold capital digamma
01D7CB Mathematical bold small digamma
01D7CE Mathematical bold digit zero
01D7CF Mathematical bold digit one
01D7D0 Mathematical bold digit two
01D7D1 Mathematical bold digit three
01D7D2 Mathematical bold digit four
01D7D3 Mathematical bold digit five
01D7D4 Mathematical bold digit six
01D7D5 Mathematical bold digit seven
01D7D6 Mathematical bold digit eight
01D7D7 Mathematical bold digit nine
01D7D8 Mathematical double-struck digit zero
01D7D9 Mathematical double-struck digit one
01D7DA Mathematical double-struck digit two
01D7DB Mathematical double-struck digit three
01D7DC Mathematical double-struck digit four
01D7DD Mathematical double-struck digit five
01D7DE Mathematical double-struck digit six
01D7DF Mathematical double-struck digit seven
01D7E0 Mathematical double-struck digit eight
01D7E1 Mathematical double-struck digit nine
01D7E2 Mathematical sans-serif digit zero
01D7E3 Mathematical sans-serif digit one
01D7E4 Mathematical sans-serif digit two
01D7E5 Mathematical sans-serif digit three
01D7E6 Mathematical sans-serif digit four
01D7E7 Mathematical sans-serif digit five
01D7E8 Mathematical sans-serif digit six
01D7E9 Mathematical sans-serif digit seven
01D7EA Mathematical sans-serif digit eight
01D7EB Mathematical sans-serif digit nine
01D7EC Mathematical sans-serif bold digit zero
01D7ED Mathematical sans-serif bold digit one
01D7EE Mathematical sans-serif bold digit two
01D7EF Mathematical sans-serif bold digit three
01D7F0 Mathematical sans-serif bold digit four
01D7F1 Mathematical sans-serif bold digit five
01D7F2 Mathematical sans-serif bold digit six
01D7F3 Mathematical sans-serif bold digit seven
01D7F4 Mathematical sans-serif bold digit eight
01D7F5 Mathematical sans-serif bold digit nine
01D7F6 Mathematical monospace digit zero
01D7F7 Mathematical monospace digit one
01D7F8 Mathematical monospace digit two
01D7F9 Mathematical monospace digit three
01D7FA Mathematical monospace digit four
01D7FB Mathematical monospace digit five
01D7FC Mathematical monospace digit six
01D7FD Mathematical monospace digit seven
01D7FE Mathematical monospace digit eight
01D7FF Mathematical monospace digit nine
01D800 Signwriting hand-fist index
01D801 Signwriting hand-circle index
01D802 Signwriting hand-cup index
01D803 Signwriting hand-oval index
01D804 Signwriting hand-hinge index
01D805 Signwriting hand-angle index
01D806 Signwriting hand-fist index bent
01D807 Signwriting hand-circle index bent
01D808 Signwriting hand-fist thumb under index bent
01D809 Signwriting hand-fist index raised knuckle
01D80A Signwriting hand-fist index cupped
01D80B Signwriting hand-fist index hinged
01D80C Signwriting hand-fist index hinged low
01D80D Signwriting hand-circle index hinge
01D80E Signwriting hand-fist index middle
01D80F Signwriting hand-circle index middle
01D810 Signwriting hand-fist index middle bent
01D811 Signwriting hand-fist index middle raised knuckles
01D812 Signwriting hand-fist index middle hinged
01D813 Signwriting hand-fist index up middle hinged
01D814 Signwriting hand-fist index hinged middle up
01D815 Signwriting hand-fist index middle conjoined
01D816 Signwriting hand-fist index middle conjoined index bent
01D817 Signwriting hand-fist index middle conjoined middle bent
01D818 Signwriting hand-fist index middle conjoined cupped
01D819 Signwriting hand-fist index middle conjoined hinged
01D81A Signwriting hand-fist index middle crossed
01D81B Signwriting hand-circle index middle crossed
01D81C Signwriting hand-fist middle bent over index
01D81D Signwriting hand-fist index bent over middle
01D81E Signwriting hand-fist index middle thumb
01D81F Signwriting hand-circle index middle thumb
01D820 Signwriting hand-fist index middle straight thumb bent
01D821 Signwriting hand-fist index middle bent thumb straight
01D822 Signwriting hand-fist index middle thumb bent
01D823 Signwriting hand-fist index middle hinged spread thumb side
01D824 Signwriting hand-fist index up middle hinged thumb side
01D825 Signwriting hand-fist index up middle hinged thumb conjoined
01D826 Signwriting hand-fist index hinged middle up thumb side
01D827 Signwriting hand-fist index middle up spread thumb forward
01D828 Signwriting hand-fist index middle thumb cupped
01D829 Signwriting hand-fist index middle thumb circled
01D82A Signwriting hand-fist index middle thumb hooked
01D82B Signwriting hand-fist index middle thumb hinged
01D82C Signwriting hand-fist thumb between index middle straight
01D82D Signwriting hand-fist index middle conjoined thumb side
01D82E Signwriting hand-fist index middle conjoined thumb side conjoined
01D82F Signwriting hand-fist index middle conjoined thumb side bent
01D830 Signwriting hand-fist middle thumb hooked index up
01D831 Signwriting hand-fist index thumb hooked middle up
01D832 Signwriting hand-fist index middle conjoined hinged thumb side
01D833 Signwriting hand-fist index middle crossed thumb side
01D834 Signwriting hand-fist index middle conjoined thumb forward
01D835 Signwriting hand-fist index middle conjoined cupped thumb forward
01D836 Signwriting hand-fist middle thumb cupped index up
01D837 Signwriting hand-fist index thumb cupped middle up
01D838 Signwriting hand-fist middle thumb circled index up
01D839 Signwriting hand-fist middle thumb circled index hinged
01D83A Signwriting hand-fist index thumb angled out middle up
01D83B Signwriting hand-fist index thumb angled in middle up
01D83C Signwriting hand-fist index thumb circled middle up
01D83D Signwriting hand-fist index middle thumb conjoined hinged
01D83E Signwriting hand-fist index middle thumb angled out
01D83F Signwriting hand-fist index middle thumb angled
01D840 Signwriting hand-fist middle thumb angled out index up
01D841 Signwriting hand-fist middle thumb angled out index crossed
01D842 Signwriting hand-fist middle thumb angled index up
01D843 Signwriting hand-fist index thumb hooked middle hinged
01D844 Signwriting hand-flat four fingers
01D845 Signwriting hand-flat four fingers bent
01D846 Signwriting hand-flat four fingers hinged
01D847 Signwriting hand-flat four fingers conjoined
01D848 Signwriting hand-flat four fingers conjoined split
01D849 Signwriting hand-claw four fingers conjoined
01D84A Signwriting hand-fist four fingers conjoined bent
01D84B Signwriting hand-hinge four fingers conjoined
01D84C Signwriting hand-flat five fingers spread
01D84D Signwriting hand-flat heel five fingers spread
01D84E Signwriting hand-flat five fingers spread four bent
01D84F Signwriting hand-flat heel five fingers spread four bent
01D850 Signwriting hand-flat five fingers spread bent
01D851 Signwriting hand-flat heel five fingers spread bent
01D852 Signwriting hand-flat five fingers spread thumb forward
01D853 Signwriting hand-cup five fingers spread
01D854 Signwriting hand-cup five fingers spread open
01D855 Signwriting hand-hinge five fingers spread open
01D856 Signwriting hand-oval five fingers spread
01D857 Signwriting hand-flat five fingers spread hinged
01D858 Signwriting hand-flat five fingers spread hinged thumb side
01D859 Signwriting hand-flat five fingers spread hinged no thumb
01D85A Signwriting hand-flat
01D85B Signwriting hand-flat between palm facings
01D85C Signwriting hand-flat heel
01D85D Signwriting hand-flat thumb side
01D85E Signwriting hand-flat heel thumb side
01D85F Signwriting hand-flat thumb bent
01D860 Signwriting hand-flat thumb forward
01D861 Signwriting hand-flat split index thumb side
01D862 Signwriting hand-flat split centre
01D863 Signwriting hand-flat split centre thumb side
01D864 Signwriting hand-flat split centre thumb side bent
01D865 Signwriting hand-flat split little
01D866 Signwriting hand-claw
01D867 Signwriting hand-claw thumb side
01D868 Signwriting hand-claw no thumb
01D869 Signwriting hand-claw thumb forward
01D86A Signwriting hand-hook curlicue
01D86B Signwriting hand-hook
01D86C Signwriting hand-cup open
01D86D Signwriting hand-cup
01D86E Signwriting hand-cup open thumb side
01D86F Signwriting hand-cup thumb side
01D870 Signwriting hand-cup open no thumb
01D871 Signwriting hand-cup no thumb
01D872 Signwriting hand-cup open thumb forward
01D873 Signwriting hand-cup thumb forward
01D874 Signwriting hand-curlicue open
01D875 Signwriting hand-curlicue
01D876 Signwriting hand-circle
01D877 Signwriting hand-oval
01D878 Signwriting hand-oval thumb side
01D879 Signwriting hand-oval no thumb
01D87A Signwriting hand-oval thumb forward
01D87B Signwriting hand-hinge open
01D87C Signwriting hand-hinge open thumb forward
01D87D Signwriting hand-hinge
01D87E Signwriting hand-hinge small
01D87F Signwriting hand-hinge open thumb side
01D880 Signwriting hand-hinge thumb side
01D881 Signwriting hand-hinge open no thumb
01D882 Signwriting hand-hinge no thumb
01D883 Signwriting hand-hinge thumb side touching index
01D884 Signwriting hand-hinge thumb between middle ring
01D885 Signwriting hand-angle
01D886 Signwriting hand-fist index middle ring
01D887 Signwriting hand-circle index middle ring
01D888 Signwriting hand-hinge index middle ring
01D889 Signwriting hand-angle index middle ring
01D88A Signwriting hand-hinge little
01D88B Signwriting hand-fist index middle ring bent
01D88C Signwriting hand-fist index middle ring conjoined
01D88D Signwriting hand-hinge index middle ring conjoined
01D88E Signwriting hand-fist little down
01D88F Signwriting hand-fist little down ripple straight
01D890 Signwriting hand-fist little down ripple curved
01D891 Signwriting hand-fist little down others circled
01D892 Signwriting hand-fist little up
01D893 Signwriting hand-fist thumb under little up
01D894 Signwriting hand-circle little up
01D895 Signwriting hand-oval little up
01D896 Signwriting hand-angle little up
01D897 Signwriting hand-fist little raised knuckle
01D898 Signwriting hand-fist little bent
01D899 Signwriting hand-fist little touches thumb
01D89A Signwriting hand-fist little thumb
01D89B Signwriting hand-hinge little thumb
01D89C Signwriting hand-fist little index thumb
01D89D Signwriting hand-hinge little index thumb
01D89E Signwriting hand-angle little index thumb index thumb out
01D89F Signwriting hand-angle little index thumb index thumb
01D8A0 Signwriting hand-fist little index
01D8A1 Signwriting hand-circle little index
01D8A2 Signwriting hand-hinge little index
01D8A3 Signwriting hand-angle little index
01D8A4 Signwriting hand-fist index middle little
01D8A5 Signwriting hand-circle index middle little
01D8A6 Signwriting hand-hinge index middle little
01D8A7 Signwriting hand-hinge ring
01D8A8 Signwriting hand-angle index middle little
01D8A9 Signwriting hand-fist index middle cross little
01D8AA Signwriting hand-circle index middle cross little
01D8AB Signwriting hand-fist ring down
01D8AC Signwriting hand-hinge ring down index thumb hook middle
01D8AD Signwriting hand-angle ring down middle thumb index cross
01D8AE Signwriting hand-fist ring up
01D8AF Signwriting hand-fist ring raised knuckle
01D8B0 Signwriting hand-fist ring little
01D8B1 Signwriting hand-circle ring little
01D8B2 Signwriting hand-oval ring little
01D8B3 Signwriting hand-angle ring little
01D8B4 Signwriting hand-fist ring middle
01D8B5 Signwriting hand-fist ring middle conjoined
01D8B6 Signwriting hand-fist ring middle raised knuckles
01D8B7 Signwriting hand-fist ring index
01D8B8 Signwriting hand-fist ring thumb
01D8B9 Signwriting hand-hook ring thumb
01D8BA Signwriting hand-fist index ring little
01D8BB Signwriting hand-circle index ring little
01D8BC Signwriting hand-curlicue index ring little on
01D8BD Signwriting hand-hook index ring little out
01D8BE Signwriting hand-hook index ring little in
01D8BF Signwriting hand-hook index ring little under
01D8C0 Signwriting hand-cup index ring little
01D8C1 Signwriting hand-hinge index ring little
01D8C2 Signwriting hand-angle index ring little out
01D8C3 Signwriting hand-angle index ring little
01D8C4 Signwriting hand-fist middle down
01D8C5 Signwriting hand-hinge middle
01D8C6 Signwriting hand-fist middle up
01D8C7 Signwriting hand-circle middle up
01D8C8 Signwriting hand-fist middle raised knuckle
01D8C9 Signwriting hand-fist middle up thumb side
01D8CA Signwriting hand-hook middle thumb
01D8CB Signwriting hand-fist middle thumb little
01D8CC Signwriting hand-fist middle little
01D8CD Signwriting hand-fist middle ring little
01D8CE Signwriting hand-circle middle ring little
01D8CF Signwriting hand-curlicue middle ring little on
01D8D0 Signwriting hand-cup middle ring little
01D8D1 Signwriting hand-hinge middle ring little
01D8D2 Signwriting hand-angle middle ring little out
01D8D3 Signwriting hand-angle middle ring little in
01D8D4 Signwriting hand-angle middle ring little
01D8D5 Signwriting hand-circle middle ring little bent
01D8D6 Signwriting hand-claw middle ring little conjoined
01D8D7 Signwriting hand-claw middle ring little conjoined side
01D8D8 Signwriting hand-hook middle ring little conjoined out
01D8D9 Signwriting hand-hook middle ring little conjoined in
01D8DA Signwriting hand-hook middle ring little conjoined
01D8DB Signwriting hand-hinge index hinged
01D8DC Signwriting hand-fist index thumb side
01D8DD Signwriting hand-hinge index thumb side
01D8DE Signwriting hand-fist index thumb side thumb diagonal
01D8DF Signwriting hand-fist index thumb side thumb conjoined
01D8E0 Signwriting hand-fist index thumb side thumb bent
01D8E1 Signwriting hand-fist index thumb side index bent
01D8E2 Signwriting hand-fist index thumb side both bent
01D8E3 Signwriting hand-fist index thumb side index hinge
01D8E4 Signwriting hand-fist index thumb forward index straight
";

pub const NAMES_72: &'static str = "01D8E5 Signwriting hand-fist index thumb forward index bent
01D8E6 Signwriting hand-fist index thumb hook
01D8E7 Signwriting hand-fist index thumb curlicue
01D8E8 Signwriting hand-fist index thumb curve thumb inside
01D8E9 Signwriting hand-claw index thumb curve thumb inside
01D8EA Signwriting hand-fist index thumb curve thumb under
01D8EB Signwriting hand-fist index thumb circle
01D8EC Signwriting hand-cup index thumb
01D8ED Signwriting hand-cup index thumb open
01D8EE Signwriting hand-hinge index thumb open
01D8EF Signwriting hand-hinge index thumb large
01D8F0 Signwriting hand-hinge index thumb
01D8F1 Signwriting hand-hinge index thumb small
01D8F2 Signwriting hand-angle index thumb out
01D8F3 Signwriting hand-angle index thumb in
01D8F4 Signwriting hand-angle index thumb
01D8F5 Signwriting hand-fist thumb
01D8F6 Signwriting hand-fist thumb heel
01D8F7 Signwriting hand-fist thumb side diagonal
01D8F8 Signwriting hand-fist thumb side conjoined
01D8F9 Signwriting hand-fist thumb side bent
01D8FA Signwriting hand-fist thumb forward
01D8FB Signwriting hand-fist thumb between index middle
01D8FC Signwriting hand-fist thumb between middle ring
01D8FD Signwriting hand-fist thumb between ring little
01D8FE Signwriting hand-fist thumb under two fingers
01D8FF Signwriting hand-fist thumb over two fingers
01D900 Signwriting hand-fist thumb under three fingers
01D901 Signwriting hand-fist thumb under four fingers
01D902 Signwriting hand-fist thumb over four raised knuckles
01D903 Signwriting hand-fist
01D904 Signwriting hand-fist heel
01D905 Signwriting touch single
01D906 Signwriting touch multiple
01D907 Signwriting touch between
01D908 Signwriting grasp single
01D909 Signwriting grasp multiple
01D90A Signwriting grasp between
01D90B Signwriting strike single
01D90C Signwriting strike multiple
01D90D Signwriting strike between
01D90E Signwriting brush single
01D90F Signwriting brush multiple
01D910 Signwriting brush between
01D911 Signwriting rub single
01D912 Signwriting rub multiple
01D913 Signwriting rub between
01D914 Signwriting surface symbols
01D915 Signwriting surface between
01D916 Signwriting squeeze large single
01D917 Signwriting squeeze small single
01D918 Signwriting squeeze large multiple
01D919 Signwriting squeeze small multiple
01D91A Signwriting squeeze sequential
01D91B Signwriting flick large single
01D91C Signwriting flick small single
01D91D Signwriting flick large multiple
01D91E Signwriting flick small multiple
01D91F Signwriting flick sequential
01D920 Signwriting squeeze flick alternating
01D921 Signwriting movement-hinge up down large
01D922 Signwriting movement-hinge up down small
01D923 Signwriting movement-hinge up sequential
01D924 Signwriting movement-hinge down sequential
01D925 Signwriting movement-hinge up down alternating large
01D926 Signwriting movement-hinge up down alternating small
01D927 Signwriting movement-hinge side to side scissors
01D928 Signwriting movement-wallplane finger contact
01D929 Signwriting movement-floorplane finger contact
01D92A Signwriting movement-wallplane single straight small
01D92B Signwriting movement-wallplane single straight medium
01D92C Signwriting movement-wallplane single straight large
01D92D Signwriting movement-wallplane single straight largest
01D92E Signwriting movement-wallplane single wrist flex
01D92F Signwriting movement-wallplane double straight
01D930 Signwriting movement-wallplane double wrist flex
01D931 Signwriting movement-wallplane double alternating
01D932 Signwriting movement-wallplane double alternating wrist flex
01D933 Signwriting movement-wallplane cross
01D934 Signwriting movement-wallplane triple straight movement
01D935 Signwriting movement-wallplane triple wrist flex
01D936 Signwriting movement-wallplane triple alternating
01D937 Signwriting movement-wallplane triple alternating wrist flex
01D938 Signwriting movement-wallplane bend small
01D939 Signwriting movement-wallplane bend medium
01D93A Signwriting movement-wallplane bend large
01D93B Signwriting movement-wallplane corner small
01D93C Signwriting movement-wallplane corner medium
01D93D Signwriting movement-wallplane corner large
01D93E Signwriting movement-wallplane corner rotation
01D93F Signwriting movement-wallplane check small
01D940 Signwriting movement-wallplane check medium
01D941 Signwriting movement-wallplane check large
01D942 Signwriting movement-wallplane box small
01D943 Signwriting movement-wallplane box medium
01D944 Signwriting movement-wallplane box large
01D945 Signwriting movement-wallplane zigzag small
01D946 Signwriting movement-wallplane zigzag medium
01D947 Signwriting movement-wallplane zigzag large
01D948 Signwriting movement-wallplane peaks small
01D949 Signwriting movement-wallplane peaks medium
01D94A Signwriting movement-wallplane peaks large
01D94B Signwriting travel-wallplane rotation-wallplane single
01D94C Signwriting travel-wallplane rotation-wallplane double
01D94D Signwriting travel-wallplane rotation-wallplane alternating
01D94E Signwriting travel-wallplane rotation-floorplane single
01D94F Signwriting travel-wallplane rotation-floorplane double
01D950 Signwriting travel-wallplane rotation-floorplane alternating
01D951 Signwriting travel-wallplane shaking
01D952 Signwriting travel-wallplane arm spiral single
01D953 Signwriting travel-wallplane arm spiral double
01D954 Signwriting travel-wallplane arm spiral triple
01D955 Signwriting movement-diagonal away small
01D956 Signwriting movement-diagonal away medium
01D957 Signwriting movement-diagonal away large
01D958 Signwriting movement-diagonal away largest
01D959 Signwriting movement-diagonal towards small
01D95A Signwriting movement-diagonal towards medium
01D95B Signwriting movement-diagonal towards large
01D95C Signwriting movement-diagonal towards largest
01D95D Signwriting movement-diagonal between away small
01D95E Signwriting movement-diagonal between away medium
01D95F Signwriting movement-diagonal between away large
01D960 Signwriting movement-diagonal between away largest
01D961 Signwriting movement-diagonal between towards small
01D962 Signwriting movement-diagonal between towards medium
01D963 Signwriting movement-diagonal between towards large
01D964 Signwriting movement-diagonal between towards largest
01D965 Signwriting movement-floorplane single straight small
01D966 Signwriting movement-floorplane single straight medium
01D967 Signwriting movement-floorplane single straight large
01D968 Signwriting movement-floorplane single straight largest
01D969 Signwriting movement-floorplane single wrist flex
01D96A Signwriting movement-floorplane double straight
01D96B Signwriting movement-floorplane double wrist flex
01D96C Signwriting movement-floorplane double alternating
01D96D Signwriting movement-floorplane double alternating wrist flex
01D96E Signwriting movement-floorplane cross
01D96F Signwriting movement-floorplane triple straight movement
01D970 Signwriting movement-floorplane triple wrist flex
01D971 Signwriting movement-floorplane triple alternating movement
01D972 Signwriting movement-floorplane triple alternating wrist flex
01D973 Signwriting movement-floorplane bend
01D974 Signwriting movement-floorplane corner small
01D975 Signwriting movement-floorplane corner medium
01D976 Signwriting movement-floorplane corner large
01D977 Signwriting movement-floorplane check
01D978 Signwriting movement-floorplane box small
01D979 Signwriting movement-floorplane box medium
01D97A Signwriting movement-floorplane box large
01D97B Signwriting movement-floorplane zigzag small
01D97C Signwriting movement-floorplane zigzag medium
01D97D Signwriting movement-floorplane zigzag large
01D97E Signwriting movement-floorplane peaks small
01D97F Signwriting movement-floorplane peaks medium
01D980 Signwriting movement-floorplane peaks large
01D981 Signwriting travel-floorplane rotation-floorplane single
01D982 Signwriting travel-floorplane rotation-floorplane double
01D983 Signwriting travel-floorplane rotation-floorplane alternating
01D984 Signwriting travel-floorplane rotation-wallplane single
01D985 Signwriting travel-floorplane rotation-wallplane double
01D986 Signwriting travel-floorplane rotation-wallplane alternating
01D987 Signwriting travel-floorplane shaking
01D988 Signwriting movement-wallplane curve quarter small
01D989 Signwriting movement-wallplane curve quarter medium
01D98A Signwriting movement-wallplane curve quarter large
01D98B Signwriting movement-wallplane curve quarter largest
01D98C Signwriting movement-wallplane curve half-circle small
01D98D Signwriting movement-wallplane curve half-circle medium
01D98E Signwriting movement-wallplane curve half-circle large
01D98F Signwriting movement-wallplane curve half-circle largest
01D990 Signwriting movement-wallplane curve three-quarter circle small
01D991 Signwriting movement-wallplane curve three-quarter circle medium
01D992 Signwriting movement-wallplane hump small
01D993 Signwriting movement-wallplane hump medium
01D994 Signwriting movement-wallplane hump large
01D995 Signwriting movement-wallplane loop small
01D996 Signwriting movement-wallplane loop medium
01D997 Signwriting movement-wallplane loop large
01D998 Signwriting movement-wallplane loop small double
01D999 Signwriting movement-wallplane wave curve double small
01D99A Signwriting movement-wallplane wave curve double medium
01D99B Signwriting movement-wallplane wave curve double large
01D99C Signwriting movement-wallplane wave curve triple small
01D99D Signwriting movement-wallplane wave curve triple medium
01D99E Signwriting movement-wallplane wave curve triple large
01D99F Signwriting movement-wallplane curve then straight
01D9A0 Signwriting movement-wallplane curved cross small
01D9A1 Signwriting movement-wallplane curved cross medium
01D9A2 Signwriting rotation-wallplane single
01D9A3 Signwriting rotation-wallplane double
01D9A4 Signwriting rotation-wallplane alternate
01D9A5 Signwriting movement-wallplane shaking
01D9A6 Signwriting movement-wallplane curve hitting front wall
01D9A7 Signwriting movement-wallplane hump hitting front wall
01D9A8 Signwriting movement-wallplane loop hitting front wall
01D9A9 Signwriting movement-wallplane wave hitting front wall
01D9AA Signwriting rotation-wallplane single hitting front wall
01D9AB Signwriting rotation-wallplane double hitting front wall
01D9AC Signwriting rotation-wallplane alternating hitting front wall
01D9AD Signwriting movement-wallplane curve hitting chest
01D9AE Signwriting movement-wallplane hump hitting chest
01D9AF Signwriting movement-wallplane loop hitting chest
01D9B0 Signwriting movement-wallplane wave hitting chest
01D9B1 Signwriting rotation-wallplane single hitting chest
01D9B2 Signwriting rotation-wallplane double hitting chest
01D9B3 Signwriting rotation-wallplane alternating hitting chest
01D9B4 Signwriting movement-wallplane wave diagonal path small
01D9B5 Signwriting movement-wallplane wave diagonal path medium
01D9B6 Signwriting movement-wallplane wave diagonal path large
01D9B7 Signwriting movement-floorplane curve hitting ceiling small
01D9B8 Signwriting movement-floorplane curve hitting ceiling large
01D9B9 Signwriting movement-floorplane hump hitting ceiling small double
01D9BA Signwriting movement-floorplane hump hitting ceiling large double
01D9BB Signwriting movement-floorplane hump hitting ceiling small triple
01D9BC Signwriting movement-floorplane hump hitting ceiling large triple
01D9BD Signwriting movement-floorplane loop hitting ceiling small single
01D9BE Signwriting movement-floorplane loop hitting ceiling large single
01D9BF Signwriting movement-floorplane loop hitting ceiling small double
01D9C0 Signwriting movement-floorplane loop hitting ceiling large double
01D9C1 Signwriting movement-floorplane wave hitting ceiling small
01D9C2 Signwriting movement-floorplane wave hitting ceiling large
01D9C3 Signwriting rotation-floorplane single hitting ceiling
01D9C4 Signwriting rotation-floorplane double hitting ceiling
01D9C5 Signwriting rotation-floorplane alternating hitting ceiling
01D9C6 Signwriting movement-floorplane curve hitting floor small
01D9C7 Signwriting movement-floorplane curve hitting floor large
01D9C8 Signwriting movement-floorplane hump hitting floor small double
01D9C9 Signwriting movement-floorplane hump hitting floor large double
01D9CA Signwriting movement-floorplane hump hitting floor triple small triple
01D9CB Signwriting movement-floorplane hump hitting floor triple large triple
01D9CC Signwriting movement-floorplane loop hitting floor small single
01D9CD Signwriting movement-floorplane loop hitting floor large single
01D9CE Signwriting movement-floorplane loop hitting floor small double
01D9CF Signwriting movement-floorplane loop hitting floor large double
01D9D0 Signwriting movement-floorplane wave hitting floor small
01D9D1 Signwriting movement-floorplane wave hitting floor large
01D9D2 Signwriting rotation-floorplane single hitting floor
01D9D3 Signwriting rotation-floorplane double hitting floor
01D9D4 Signwriting rotation-floorplane alternating hitting floor
01D9D5 Signwriting movement-floorplane curve small
01D9D6 Signwriting movement-floorplane curve medium
01D9D7 Signwriting movement-floorplane curve large
01D9D8 Signwriting movement-floorplane curve largest
01D9D9 Signwriting movement-floorplane curve combined
01D9DA Signwriting movement-floorplane hump small
01D9DB Signwriting movement-floorplane loop small
01D9DC Signwriting movement-floorplane wave snake
01D9DD Signwriting movement-floorplane wave small
01D9DE Signwriting movement-floorplane wave large
01D9DF Signwriting rotation-floorplane single
01D9E0 Signwriting rotation-floorplane double
01D9E1 Signwriting rotation-floorplane alternating
01D9E2 Signwriting movement-floorplane shaking parallel
01D9E3 Signwriting movement-wallplane arm circle small single
01D9E4 Signwriting movement-wallplane arm circle medium single
01D9E5 Signwriting movement-wallplane arm circle small double
";

pub const NAMES_73: &'static str = "01D9E6 Signwriting movement-wallplane arm circle medium double
01D9E7 Signwriting movement-floorplane arm circle hitting wall small single
01D9E8 Signwriting movement-floorplane arm circle hitting wall medium single
01D9E9 Signwriting movement-floorplane arm circle hitting wall large single
01D9EA Signwriting movement-floorplane arm circle hitting wall small double
01D9EB Signwriting movement-floorplane arm circle hitting wall medium double
01D9EC Signwriting movement-floorplane arm circle hitting wall large double
01D9ED Signwriting movement-wallplane wrist circle front single
01D9EE Signwriting movement-wallplane wrist circle front double
01D9EF Signwriting movement-floorplane wrist circle hitting wall single
01D9F0 Signwriting movement-floorplane wrist circle hitting wall double
01D9F1 Signwriting movement-wallplane finger circles single
01D9F2 Signwriting movement-wallplane finger circles double
01D9F3 Signwriting movement-floorplane finger circles hitting wall single
01D9F4 Signwriting movement-floorplane finger circles hitting wall double
01D9F5 Signwriting dynamic arrowhead small
01D9F6 Signwriting dynamic arrowhead large
01D9F7 Signwriting dynamic fast
01D9F8 Signwriting dynamic slow
01D9F9 Signwriting dynamic tense
01D9FA Signwriting dynamic relaxed
01D9FB Signwriting dynamic simultaneous
01D9FC Signwriting dynamic simultaneous alternating
01D9FD Signwriting dynamic every other time
01D9FE Signwriting dynamic gradual
01D9FF Signwriting head
01DA00 Signwriting head rim
01DA01 Signwriting head movement-wallplane straight
01DA02 Signwriting head movement-wallplane tilt
01DA03 Signwriting head movement-floorplane straight
01DA04 Signwriting head movement-wallplane curve
01DA05 Signwriting head movement-floorplane curve
01DA06 Signwriting head movement circle
01DA07 Signwriting face direction position nose forward tilting
01DA08 Signwriting face direction position nose up or down
01DA09 Signwriting face direction position nose up or down tilting
01DA0A Signwriting eyebrows straight up
01DA0B Signwriting eyebrows straight neutral
01DA0C Signwriting eyebrows straight down
01DA0D Signwriting dreamy eyebrows neutral down
01DA0E Signwriting dreamy eyebrows down neutral
01DA0F Signwriting dreamy eyebrows up neutral
01DA10 Signwriting dreamy eyebrows neutral up
01DA11 Signwriting forehead neutral
01DA12 Signwriting forehead contact
01DA13 Signwriting forehead wrinkled
01DA14 Signwriting eyes open
01DA15 Signwriting eyes squeezed
01DA16 Signwriting eyes closed
01DA17 Signwriting eye blink single
01DA18 Signwriting eye blink multiple
01DA19 Signwriting eyes half open
01DA1A Signwriting eyes wide open
01DA1B Signwriting eyes half closed
01DA1C Signwriting eyes widening movement
01DA1D Signwriting eye wink
01DA1E Signwriting eyelashes up
01DA1F Signwriting eyelashes down
01DA20 Signwriting eyelashes fluttering
01DA21 Signwriting eyegaze-wallplane straight
01DA22 Signwriting eyegaze-wallplane straight double
01DA23 Signwriting eyegaze-wallplane straight alternating
01DA24 Signwriting eyegaze-floorplane straight
01DA25 Signwriting eyegaze-floorplane straight double
01DA26 Signwriting eyegaze-floorplane straight alternating
01DA27 Signwriting eyegaze-wallplane curved
01DA28 Signwriting eyegaze-floorplane curved
01DA29 Signwriting eyegaze-wallplane circling
01DA2A Signwriting cheeks puffed
01DA2B Signwriting cheeks neutral
01DA2C Signwriting cheeks sucked
01DA2D Signwriting tense cheeks high
01DA2E Signwriting tense cheeks middle
01DA2F Signwriting tense cheeks low
01DA30 Signwriting ears
01DA31 Signwriting nose neutral
01DA32 Signwriting nose contact
01DA33 Signwriting nose wrinkles
01DA34 Signwriting nose wiggles
01DA35 Signwriting air blowing out
01DA36 Signwriting air sucking in
01DA37 Signwriting air blow small rotations
01DA38 Signwriting air suck small rotations
01DA39 Signwriting breath inhale
01DA3A Signwriting breath exhale
01DA3B Signwriting mouth closed neutral
01DA3C Signwriting mouth closed forward
01DA3D Signwriting mouth closed contact
01DA3E Signwriting mouth smile
01DA3F Signwriting mouth smile wrinkled
01DA40 Signwriting mouth smile open
01DA41 Signwriting mouth frown
01DA42 Signwriting mouth frown wrinkled
01DA43 Signwriting mouth frown open
01DA44 Signwriting mouth open circle
01DA45 Signwriting mouth open forward
01DA46 Signwriting mouth open wrinkled
01DA47 Signwriting mouth open oval
01DA48 Signwriting mouth open oval wrinkled
01DA49 Signwriting mouth open oval yawn
01DA4A Signwriting mouth open rectangle
01DA4B Signwriting mouth open rectangle wrinkled
01DA4C Signwriting mouth open rectangle yawn
01DA4D Signwriting mouth kiss
01DA4E Signwriting mouth kiss forward
01DA4F Signwriting mouth kiss wrinkled
01DA50 Signwriting mouth tense
01DA51 Signwriting mouth tense forward
01DA52 Signwriting mouth tense sucked
01DA53 Signwriting lips pressed together
01DA54 Signwriting lip lower over upper
01DA55 Signwriting lip upper over lower
01DA56 Signwriting mouth corners
01DA57 Signwriting mouth wrinkles single
01DA58 Signwriting mouth wrinkles double
01DA59 Signwriting tongue sticking out far
01DA5A Signwriting tongue licking lips
01DA5B Signwriting tongue tip between lips
01DA5C Signwriting tongue tip touching inside mouth
01DA5D Signwriting tongue inside mouth relaxed
01DA5E Signwriting tongue moves against cheek
01DA5F Signwriting tongue centre sticking out
01DA60 Signwriting tongue centre inside mouth
01DA61 Signwriting teeth
01DA62 Signwriting teeth movement
01DA63 Signwriting teeth on tongue
01DA64 Signwriting teeth on tongue movement
01DA65 Signwriting teeth on lips
01DA66 Signwriting teeth on lips movement
01DA67 Signwriting teeth bite lips
01DA68 Signwriting movement-wallplane jaw
01DA69 Signwriting movement-floorplane jaw
01DA6A Signwriting neck
01DA6B Signwriting hair
01DA6C Signwriting excitement
01DA6D Signwriting shoulder hip spine
01DA6E Signwriting shoulder hip positions
01DA6F Signwriting wallplane shoulder hip move
01DA70 Signwriting floorplane shoulder hip move
01DA71 Signwriting shoulder tilting from waist
01DA72 Signwriting torso-wallplane straight stretch
01DA73 Signwriting torso-wallplane curved bend
01DA74 Signwriting torso-floorplane twisting
01DA75 Signwriting upper body tilting from hip joints
01DA76 Signwriting limb combination
01DA77 Signwriting limb length-1
01DA78 Signwriting limb length-2
01DA79 Signwriting limb length-3
01DA7A Signwriting limb length-4
01DA7B Signwriting limb length-5
01DA7C Signwriting limb length-6
01DA7D Signwriting limb length-7
01DA7E Signwriting finger
01DA7F Signwriting location-wallplane space
01DA80 Signwriting location-floorplane space
01DA81 Signwriting location height
01DA82 Signwriting location width
01DA83 Signwriting location depth
01DA84 Signwriting location head neck
01DA85 Signwriting location torso
01DA86 Signwriting location limbs digits
01DA87 Signwriting comma
01DA88 Signwriting full stop
01DA89 Signwriting semicolon
01DA8A Signwriting colon
01DA8B Signwriting parenthesis
01DA9B Signwriting fill modifier-2
01DA9C Signwriting fill modifier-3
01DA9D Signwriting fill modifier-4
01DA9E Signwriting fill modifier-5
01DA9F Signwriting fill modifier-6
01DAA1 Signwriting rotation modifier-2
01DAA2 Signwriting rotation modifier-3
01DAA3 Signwriting rotation modifier-4
01DAA4 Signwriting rotation modifier-5
01DAA5 Signwriting rotation modifier-6
01DAA6 Signwriting rotation modifier-7
01DAA7 Signwriting rotation modifier-8
01DAA8 Signwriting rotation modifier-9
01DAA9 Signwriting rotation modifier-10
01DAAA Signwriting rotation modifier-11
01DAAB Signwriting rotation modifier-12
01DAAC Signwriting rotation modifier-13
01DAAD Signwriting rotation modifier-14
01DAAE Signwriting rotation modifier-15
01DAAF Signwriting rotation modifier-16
01DF00 Latin small letter feng digraph with trill
01DF01 Latin small letter reversed script g
01DF02 Latin letter small capital turned g
01DF03 Latin small letter reversed k
01DF04 Latin letter small capital l with belt
01DF05 Latin small letter lezh with retroflex hook
01DF06 Latin small letter turned y with belt
01DF07 Latin small letter reversed eng
01DF08 Latin small letter turned r with long leg and retroflex hook
01DF09 Latin small letter t with hook and retroflex hook
01DF0A Latin letter retroflex click with retroflex hook
01DF0B Latin small letter esh with double bar
01DF0C Latin small letter esh with double bar and curl
01DF0D Latin small letter turned t with curl
01DF0E Latin letter inverted glottal stop with curl
01DF0F Latin letter stretched c with curl
01DF10 Latin letter small capital turned k
01DF11 Latin small letter l with fishhook
01DF12 Latin small letter dezh digraph with palatal hook
01DF13 Latin small letter l with belt and palatal hook
01DF14 Latin small letter eng with palatal hook
01DF15 Latin small letter turned r with palatal hook
01DF16 Latin small letter r with fishhook and palatal hook
01DF17 Latin small letter tesh digraph with palatal hook
01DF18 Latin small letter ezh with palatal hook
01DF19 Latin small letter dezh digraph with retroflex hook
01DF1A Latin small letter i with stroke and retroflex hook
01DF1B Latin small letter o with retroflex hook
01DF1C Latin small letter tesh digraph with retroflex hook
01DF1D Latin small letter c with retroflex hook
01DF1E Latin small letter s with curl
01E000 Combining glagolitic letter azu
01E001 Combining glagolitic letter buky
01E002 Combining glagolitic letter vede
01E003 Combining glagolitic letter glagoli
01E004 Combining glagolitic letter dobro
01E005 Combining glagolitic letter yestu
01E006 Combining glagolitic letter zhivete
01E008 Combining glagolitic letter zemlja
01E009 Combining glagolitic letter izhe
01E00A Combining glagolitic letter initial izhe
01E00B Combining glagolitic letter i
01E00C Combining glagolitic letter djervi
01E00D Combining glagolitic letter kako
01E00E Combining glagolitic letter ljudije
01E00F Combining glagolitic letter myslite
01E010 Combining glagolitic letter nashi
01E011 Combining glagolitic letter onu
01E012 Combining glagolitic letter pokoji
01E013 Combining glagolitic letter ritsi
01E014 Combining glagolitic letter slovo
01E015 Combining glagolitic letter tvrido
01E016 Combining glagolitic letter uku
01E017 Combining glagolitic letter fritu
01E018 Combining glagolitic letter heru
01E01B Combining glagolitic letter shta
01E01C Combining glagolitic letter tsi
01E01D Combining glagolitic letter chrivi
01E01E Combining glagolitic letter sha
01E01F Combining glagolitic letter yeru
01E020 Combining glagolitic letter yeri
01E021 Combining glagolitic letter yati
01E023 Combining glagolitic letter yu
01E024 Combining glagolitic letter small yus
01E026 Combining glagolitic letter yo
01E027 Combining glagolitic letter iotated small yus
01E028 Combining glagolitic letter big yus
01E029 Combining glagolitic letter iotated big yus
01E02A Combining glagolitic letter fita
01E100 Nyiakeng puachue hmong letter ma
01E101 Nyiakeng puachue hmong letter tsa
01E102 Nyiakeng puachue hmong letter nta
01E103 Nyiakeng puachue hmong letter ta
01E104 Nyiakeng puachue hmong letter ha
01E105 Nyiakeng puachue hmong letter na
01E106 Nyiakeng puachue hmong letter xa
01E107 Nyiakeng puachue hmong letter nka
01E108 Nyiakeng puachue hmong letter ca
01E109 Nyiakeng puachue hmong letter la
01E10A Nyiakeng puachue hmong letter sa
01E10B Nyiakeng puachue hmong letter za
01E10C Nyiakeng puachue hmong letter nca
01E10D Nyiakeng puachue hmong letter ntsa
01E10E Nyiakeng puachue hmong letter ka
01E10F Nyiakeng puachue hmong letter da
01E110 Nyiakeng puachue hmong letter nya
01E111 Nyiakeng puachue hmong letter nra
01E112 Nyiakeng puachue hmong letter va
01E113 Nyiakeng puachue hmong letter ntxa
01E114 Nyiakeng puachue hmong letter txa
01E115 Nyiakeng puachue hmong letter fa
01E116 Nyiakeng puachue hmong letter ra
01E117 Nyiakeng puachue hmong letter qa
01E118 Nyiakeng puachue hmong letter ya
01E119 Nyiakeng puachue hmong letter nqa
01E11A Nyiakeng puachue hmong letter pa
01E11B Nyiakeng puachue hmong letter xya
01E11C Nyiakeng puachue hmong letter npa
01E11D Nyiakeng puachue hmong letter dla
01E11E Nyiakeng puachue hmong letter npla
01E11F Nyiakeng puachue hmong letter hah
01E120 Nyiakeng puachue hmong letter mla
01E121 Nyiakeng puachue hmong letter pla
01E122 Nyiakeng puachue hmong letter ga
01E123 Nyiakeng puachue hmong letter rra
01E124 Nyiakeng puachue hmong letter a
01E125 Nyiakeng puachue hmong letter aa
01E126 Nyiakeng puachue hmong letter i
01E127 Nyiakeng puachue hmong letter u
01E128 Nyiakeng puachue hmong letter o
01E129 Nyiakeng puachue hmong letter oo
01E12A Nyiakeng puachue hmong letter e
01E12B Nyiakeng puachue hmong letter ee
01E12C Nyiakeng puachue hmong letter w
01E130 Nyiakeng puachue hmong tone-b
01E131 Nyiakeng puachue hmong tone-m
01E132 Nyiakeng puachue hmong tone-j
01E133 Nyiakeng puachue hmong tone-v
01E134 Nyiakeng puachue hmong tone-s
01E135 Nyiakeng puachue hmong tone-g
01E136 Nyiakeng puachue hmong tone-d
01E137 Nyiakeng puachue hmong sign for person
01E138 Nyiakeng puachue hmong sign for thing
01E139 Nyiakeng puachue hmong sign for location
01E13A Nyiakeng puachue hmong sign for animal
01E13B Nyiakeng puachue hmong sign for invertebrate
01E13C Nyiakeng puachue hmong sign xw xw
01E13D Nyiakeng puachue hmong syllable lengthener
01E140 Nyiakeng puachue hmong digit zero
01E141 Nyiakeng puachue hmong digit one
01E142 Nyiakeng puachue hmong digit two
01E143 Nyiakeng puachue hmong digit three
01E144 Nyiakeng puachue hmong digit four
01E145 Nyiakeng puachue hmong digit five
01E146 Nyiakeng puachue hmong digit six
01E147 Nyiakeng puachue hmong digit seven
01E148 Nyiakeng puachue hmong digit eight
01E149 Nyiakeng puachue hmong digit nine
01E14E Nyiakeng puachue hmong logogram nyaj
01E14F Nyiakeng puachue hmong circled ca
01E290 Toto letter pa
01E291 Toto letter ba
01E292 Toto letter ta
01E293 Toto letter da
01E294 Toto letter ka
01E295 Toto letter ga
01E296 Toto letter ma
01E297 Toto letter na
01E298 Toto letter nga
01E299 Toto letter sa
";

pub const NAMES_74: &'static str = "01E29A Toto letter cha
01E29B Toto letter ya
01E29C Toto letter wa
01E29D Toto letter ja
01E29E Toto letter ha
01E29F Toto letter ra
01E2A0 Toto letter la
01E2A1 Toto letter i
01E2A2 Toto letter breathy i
01E2A3 Toto letter iu
01E2A4 Toto letter breathy iu
01E2A5 Toto letter u
01E2A6 Toto letter e
01E2A7 Toto letter breathy e
01E2A8 Toto letter eo
01E2A9 Toto letter breathy eo
01E2AA Toto letter o
01E2AB Toto letter ae
01E2AC Toto letter breathy ae
01E2AD Toto letter a
01E2AE Toto sign rising tone
01E2C0 Wancho letter aa
01E2C1 Wancho letter a
01E2C2 Wancho letter ba
01E2C3 Wancho letter ca
01E2C4 Wancho letter da
01E2C5 Wancho letter ga
01E2C6 Wancho letter ya
01E2C7 Wancho letter pha
01E2C8 Wancho letter la
01E2C9 Wancho letter na
01E2CA Wancho letter pa
01E2CB Wancho letter ta
01E2CC Wancho letter tha
01E2CD Wancho letter fa
01E2CE Wancho letter sa
01E2CF Wancho letter sha
01E2D0 Wancho letter ja
01E2D1 Wancho letter za
01E2D2 Wancho letter wa
01E2D3 Wancho letter va
01E2D4 Wancho letter ka
01E2D5 Wancho letter o
01E2D6 Wancho letter au
01E2D7 Wancho letter ra
01E2D8 Wancho letter ma
01E2D9 Wancho letter kha
01E2DA Wancho letter ha
01E2DB Wancho letter e
01E2DC Wancho letter i
01E2DD Wancho letter nga
01E2DE Wancho letter u
01E2DF Wancho letter llha
01E2E0 Wancho letter tsa
01E2E1 Wancho letter tra
01E2E2 Wancho letter ong
01E2E3 Wancho letter aang
01E2E4 Wancho letter ang
01E2E5 Wancho letter ing
01E2E6 Wancho letter on
01E2E7 Wancho letter en
01E2E8 Wancho letter aan
01E2E9 Wancho letter nya
01E2EA Wancho letter uen
01E2EB Wancho letter yih
01E2EC Wancho tone tup
01E2ED Wancho tone tupni
01E2EE Wancho tone koi
01E2EF Wancho tone koini
01E2F0 Wancho digit zero
01E2F1 Wancho digit one
01E2F2 Wancho digit two
01E2F3 Wancho digit three
01E2F4 Wancho digit four
01E2F5 Wancho digit five
01E2F6 Wancho digit six
01E2F7 Wancho digit seven
01E2F8 Wancho digit eight
01E2F9 Wancho digit nine
01E2FF Wancho ngun sign
01E7E0 Ethiopic syllable hhya
01E7E1 Ethiopic syllable hhyu
01E7E2 Ethiopic syllable hhyi
01E7E3 Ethiopic syllable hhyaa
01E7E4 Ethiopic syllable hhyee
01E7E5 Ethiopic syllable hhye
01E7E6 Ethiopic syllable hhyo
01E7E8 Ethiopic syllable gurage hhwa
01E7E9 Ethiopic syllable hhwi
01E7EA Ethiopic syllable hhwee
01E7EB Ethiopic syllable hhwe
01E7ED Ethiopic syllable gurage mwi
01E7EE Ethiopic syllable gurage mwee
01E7F0 Ethiopic syllable gurage qwi
01E7F1 Ethiopic syllable gurage qwee
01E7F2 Ethiopic syllable gurage qwe
01E7F3 Ethiopic syllable gurage bwi
01E7F4 Ethiopic syllable gurage bwee
01E7F5 Ethiopic syllable gurage kwi
01E7F6 Ethiopic syllable gurage kwee
01E7F7 Ethiopic syllable gurage kwe
01E7F8 Ethiopic syllable gurage gwi
01E7F9 Ethiopic syllable gurage gwee
01E7FA Ethiopic syllable gurage gwe
01E7FB Ethiopic syllable gurage fwi
01E7FC Ethiopic syllable gurage fwee
01E7FD Ethiopic syllable gurage pwi
01E7FE Ethiopic syllable gurage pwee
01E800 Mende kikakui syllable m001 ki
01E801 Mende kikakui syllable m002 ka
01E802 Mende kikakui syllable m003 ku
01E803 Mende kikakui syllable m065 kee
01E804 Mende kikakui syllable m095 ke
01E805 Mende kikakui syllable m076 koo
01E806 Mende kikakui syllable m048 ko
01E807 Mende kikakui syllable m179 kua
01E808 Mende kikakui syllable m004 wi
01E809 Mende kikakui syllable m005 wa
01E80A Mende kikakui syllable m006 wu
01E80B Mende kikakui syllable m126 wee
01E80C Mende kikakui syllable m118 we
01E80D Mende kikakui syllable m114 woo
01E80E Mende kikakui syllable m045 wo
01E80F Mende kikakui syllable m194 wui
01E810 Mende kikakui syllable m143 wei
01E811 Mende kikakui syllable m061 wvi
01E812 Mende kikakui syllable m049 wva
01E813 Mende kikakui syllable m139 wve
01E814 Mende kikakui syllable m007 min
01E815 Mende kikakui syllable m008 man
01E816 Mende kikakui syllable m009 mun
01E817 Mende kikakui syllable m059 men
01E818 Mende kikakui syllable m094 mon
01E819 Mende kikakui syllable m154 muan
01E81A Mende kikakui syllable m189 muen
01E81B Mende kikakui syllable m010 bi
01E81C Mende kikakui syllable m011 ba
01E81D Mende kikakui syllable m012 bu
01E81E Mende kikakui syllable m150 bee
01E81F Mende kikakui syllable m097 be
01E820 Mende kikakui syllable m103 boo
01E821 Mende kikakui syllable m138 bo
01E822 Mende kikakui syllable m013 i
01E823 Mende kikakui syllable m014 a
01E824 Mende kikakui syllable m015 u
01E825 Mende kikakui syllable m163 ee
01E826 Mende kikakui syllable m100 e
01E827 Mende kikakui syllable m165 oo
01E828 Mende kikakui syllable m147 o
01E829 Mende kikakui syllable m137 ei
01E82A Mende kikakui syllable m131 in
01E82B Mende kikakui syllable m135 in
01E82C Mende kikakui syllable m195 an
01E82D Mende kikakui syllable m178 en
01E82E Mende kikakui syllable m019 si
01E82F Mende kikakui syllable m020 sa
01E830 Mende kikakui syllable m021 su
01E831 Mende kikakui syllable m162 see
01E832 Mende kikakui syllable m116 se
01E833 Mende kikakui syllable m136 soo
01E834 Mende kikakui syllable m079 so
01E835 Mende kikakui syllable m196 sia
01E836 Mende kikakui syllable m025 li
01E837 Mende kikakui syllable m026 la
01E838 Mende kikakui syllable m027 lu
01E839 Mende kikakui syllable m084 lee
01E83A Mende kikakui syllable m073 le
01E83B Mende kikakui syllable m054 loo
01E83C Mende kikakui syllable m153 lo
01E83D Mende kikakui syllable m110 long le
01E83E Mende kikakui syllable m016 di
01E83F Mende kikakui syllable m017 da
01E840 Mende kikakui syllable m018 du
01E841 Mende kikakui syllable m089 dee
01E842 Mende kikakui syllable m180 doo
01E843 Mende kikakui syllable m181 do
01E844 Mende kikakui syllable m022 ti
01E845 Mende kikakui syllable m023 ta
01E846 Mende kikakui syllable m024 tu
01E847 Mende kikakui syllable m091 tee
01E848 Mende kikakui syllable m055 te
01E849 Mende kikakui syllable m104 too
01E84A Mende kikakui syllable m069 to
01E84B Mende kikakui syllable m028 ji
01E84C Mende kikakui syllable m029 ja
01E84D Mende kikakui syllable m030 ju
01E84E Mende kikakui syllable m157 jee
01E84F Mende kikakui syllable m113 je
01E850 Mende kikakui syllable m160 joo
01E851 Mende kikakui syllable m063 jo
01E852 Mende kikakui syllable m175 long jo
01E853 Mende kikakui syllable m031 yi
01E854 Mende kikakui syllable m032 ya
01E855 Mende kikakui syllable m033 yu
01E856 Mende kikakui syllable m109 yee
01E857 Mende kikakui syllable m080 ye
01E858 Mende kikakui syllable m141 yoo
01E859 Mende kikakui syllable m121 yo
01E85A Mende kikakui syllable m034 fi
01E85B Mende kikakui syllable m035 fa
01E85C Mende kikakui syllable m036 fu
01E85D Mende kikakui syllable m078 fee
01E85E Mende kikakui syllable m075 fe
01E85F Mende kikakui syllable m133 foo
01E860 Mende kikakui syllable m088 fo
01E861 Mende kikakui syllable m197 fua
01E862 Mende kikakui syllable m101 fan
01E863 Mende kikakui syllable m037 nin
01E864 Mende kikakui syllable m038 nan
01E865 Mende kikakui syllable m039 nun
01E866 Mende kikakui syllable m117 nen
01E867 Mende kikakui syllable m169 non
01E868 Mende kikakui syllable m176 hi
01E869 Mende kikakui syllable m041 ha
01E86A Mende kikakui syllable m186 hu
01E86B Mende kikakui syllable m040 hee
01E86C Mende kikakui syllable m096 he
01E86D Mende kikakui syllable m042 hoo
01E86E Mende kikakui syllable m140 ho
01E86F Mende kikakui syllable m083 heei
01E870 Mende kikakui syllable m128 hoou
01E871 Mende kikakui syllable m053 hin
01E872 Mende kikakui syllable m130 han
01E873 Mende kikakui syllable m087 hun
01E874 Mende kikakui syllable m052 hen
01E875 Mende kikakui syllable m193 hon
01E876 Mende kikakui syllable m046 huan
01E877 Mende kikakui syllable m090 nggi
01E878 Mende kikakui syllable m043 ngga
01E879 Mende kikakui syllable m082 nggu
01E87A Mende kikakui syllable m115 nggee
01E87B Mende kikakui syllable m146 ngge
01E87C Mende kikakui syllable m156 nggoo
01E87D Mende kikakui syllable m120 nggo
01E87E Mende kikakui syllable m159 nggaa
01E87F Mende kikakui syllable m127 nggua
01E880 Mende kikakui syllable m086 long ngge
01E881 Mende kikakui syllable m106 long nggoo
01E882 Mende kikakui syllable m183 long nggo
01E883 Mende kikakui syllable m155 gi
01E884 Mende kikakui syllable m111 ga
01E885 Mende kikakui syllable m168 gu
01E886 Mende kikakui syllable m190 gee
01E887 Mende kikakui syllable m166 guei
01E888 Mende kikakui syllable m167 guan
01E889 Mende kikakui syllable m184 ngen
01E88A Mende kikakui syllable m057 ngon
01E88B Mende kikakui syllable m177 nguan
01E88C Mende kikakui syllable m068 pi
01E88D Mende kikakui syllable m099 pa
01E88E Mende kikakui syllable m050 pu
01E88F Mende kikakui syllable m081 pee
01E890 Mende kikakui syllable m051 pe
01E891 Mende kikakui syllable m102 poo
01E892 Mende kikakui syllable m066 po
01E893 Mende kikakui syllable m145 mbi
01E894 Mende kikakui syllable m062 mba
01E895 Mende kikakui syllable m122 mbu
01E896 Mende kikakui syllable m047 mbee
01E897 Mende kikakui syllable m188 mbee
01E898 Mende kikakui syllable m072 mbe
01E899 Mende kikakui syllable m172 mboo
01E89A Mende kikakui syllable m174 mbo
01E89B Mende kikakui syllable m187 mbuu
01E89C Mende kikakui syllable m161 long mbe
01E89D Mende kikakui syllable m105 long mboo
01E89E Mende kikakui syllable m142 long mbo
01E89F Mende kikakui syllable m132 kpi
01E8A0 Mende kikakui syllable m092 kpa
01E8A1 Mende kikakui syllable m074 kpu
01E8A2 Mende kikakui syllable m044 kpee
01E8A3 Mende kikakui syllable m108 kpe
01E8A4 Mende kikakui syllable m112 kpoo
01E8A5 Mende kikakui syllable m158 kpo
01E8A6 Mende kikakui syllable m124 gbi
01E8A7 Mende kikakui syllable m056 gba
01E8A8 Mende kikakui syllable m148 gbu
01E8A9 Mende kikakui syllable m093 gbee
01E8AA Mende kikakui syllable m107 gbe
01E8AB Mende kikakui syllable m071 gboo
01E8AC Mende kikakui syllable m070 gbo
01E8AD Mende kikakui syllable m171 ra
01E8AE Mende kikakui syllable m123 ndi
01E8AF Mende kikakui syllable m129 nda
01E8B0 Mende kikakui syllable m125 ndu
01E8B1 Mende kikakui syllable m191 ndee
01E8B2 Mende kikakui syllable m119 nde
01E8B3 Mende kikakui syllable m067 ndoo
01E8B4 Mende kikakui syllable m064 ndo
01E8B5 Mende kikakui syllable m152 nja
01E8B6 Mende kikakui syllable m192 nju
01E8B7 Mende kikakui syllable m149 njee
01E8B8 Mende kikakui syllable m134 njoo
01E8B9 Mende kikakui syllable m182 vi
01E8BA Mende kikakui syllable m185 va
01E8BB Mende kikakui syllable m151 vu
01E8BC Mende kikakui syllable m173 vee
01E8BD Mende kikakui syllable m085 ve
01E8BE Mende kikakui syllable m144 voo
01E8BF Mende kikakui syllable m077 vo
01E8C0 Mende kikakui syllable m164 nyin
01E8C1 Mende kikakui syllable m058 nyan
01E8C2 Mende kikakui syllable m170 nyun
01E8C3 Mende kikakui syllable m098 nyen
01E8C4 Mende kikakui syllable m060 nyon
01E8C7 Mende kikakui digit one
01E8C8 Mende kikakui digit two
01E8C9 Mende kikakui digit three
01E8CA Mende kikakui digit four
01E8CB Mende kikakui digit five
01E8CC Mende kikakui digit six
01E8CD Mende kikakui digit seven
01E8CE Mende kikakui digit eight
01E8CF Mende kikakui digit nine
01E8D0 Mende kikakui combining number teens
01E8D1 Mende kikakui combining number tens
01E8D2 Mende kikakui combining number hundreds
01E8D3 Mende kikakui combining number thousands
01E8D4 Mende kikakui combining number ten thousands
01E8D5 Mende kikakui combining number hundred thousands
01E8D6 Mende kikakui combining number millions
01E900 Adlam capital letter alif
01E901 Adlam capital letter daali
01E902 Adlam capital letter laam
01E903 Adlam capital letter miim
01E904 Adlam capital letter ba
01E905 Adlam capital letter sinnyiiyhe
01E906 Adlam capital letter pe
01E907 Adlam capital letter bhe
01E908 Adlam capital letter ra
01E909 Adlam capital letter e
01E90A Adlam capital letter fa
01E90B Adlam capital letter i
01E90C Adlam capital letter o
01E90D Adlam capital letter dha
01E90E Adlam capital letter yhe
01E90F Adlam capital letter waw
01E910 Adlam capital letter nun
01E911 Adlam capital letter kaf
01E912 Adlam capital letter ya
01E913 Adlam capital letter u
01E914 Adlam capital letter jiim
01E915 Adlam capital letter chi
01E916 Adlam capital letter ha
01E917 Adlam capital letter qaaf
01E918 Adlam capital letter ga
01E919 Adlam capital letter nya
01E91A Adlam capital letter tu
01E91B Adlam capital letter nha
01E91C Adlam capital letter va
01E91D Adlam capital letter kha
01E91E Adlam capital letter gbe
01E91F Adlam capital letter zal
01E920 Adlam capital letter kpo
01E921 Adlam capital letter sha
01E922 Adlam small letter alif
01E923 Adlam small letter daali
01E924 Adlam small letter laam
01E925 Adlam small letter miim
01E926 Adlam small letter ba
01E927 Adlam small letter sinnyiiyhe
01E928 Adlam small letter pe
01E929 Adlam small letter bhe
01E92A Adlam small letter ra
01E92B Adlam small letter e
01E92C Adlam small letter fa
01E92D Adlam small letter i
01E92E Adlam small letter o
01E92F Adlam small letter dha
01E930 Adlam small letter yhe
01E931 Adlam small letter waw
01E932 Adlam small letter nun
01E933 Adlam small letter kaf
01E934 Adlam small letter ya
01E935 Adlam small letter u
01E936 Adlam small letter jiim
01E937 Adlam small letter chi
01E938 Adlam small letter ha
01E939 Adlam small letter qaaf
01E93A Adlam small letter ga
01E93B Adlam small letter nya
01E93C Adlam small letter tu
01E93D Adlam small letter nha
01E93E Adlam small letter va
01E93F Adlam small letter kha
01E940 Adlam small letter gbe
01E941 Adlam small letter zal
01E942 Adlam small letter kpo
01E943 Adlam small letter sha
01E944 Adlam alif lengthener
01E945 Adlam vowel lengthener
01E946 Adlam gemination mark
01E947 Adlam hamza
01E948 Adlam consonant modifier
01E949 Adlam geminate consonant modifier
01E94A Adlam nukta
01E94B Adlam nasalization mark
01E950 Adlam digit zero
01E951 Adlam digit one
01E952 Adlam digit two
01E953 Adlam digit three
01E954 Adlam digit four
01E955 Adlam digit five
01E956 Adlam digit six
01E957 Adlam digit seven
01E958 Adlam digit eight
01E959 Adlam digit nine
01E95E Adlam initial exclamation mark
01E95F Adlam initial question mark
01EC71 Indic siyaq number one
01EC72 Indic siyaq number two
01EC73 Indic siyaq number three
01EC74 Indic siyaq number four
";

pub const NAMES_75: &'static str = "01EC75 Indic siyaq number five
01EC76 Indic siyaq number six
01EC77 Indic siyaq number seven
01EC78 Indic siyaq number eight
01EC79 Indic siyaq number nine
01EC7A Indic siyaq number ten
01EC7B Indic siyaq number twenty
01EC7C Indic siyaq number thirty
01EC7D Indic siyaq number forty
01EC7E Indic siyaq number fifty
01EC7F Indic siyaq number sixty
01EC80 Indic siyaq number seventy
01EC81 Indic siyaq number eighty
01EC82 Indic siyaq number ninety
01EC83 Indic siyaq number one hundred
01EC84 Indic siyaq number two hundred
01EC85 Indic siyaq number three hundred
01EC86 Indic siyaq number four hundred
01EC87 Indic siyaq number five hundred
01EC88 Indic siyaq number six hundred
01EC89 Indic siyaq number seven hundred
01EC8A Indic siyaq number eight hundred
01EC8B Indic siyaq number nine hundred
01EC8C Indic siyaq number one thousand
01EC8D Indic siyaq number two thousand
01EC8E Indic siyaq number three thousand
01EC8F Indic siyaq number four thousand
01EC90 Indic siyaq number five thousand
01EC91 Indic siyaq number six thousand
01EC92 Indic siyaq number seven thousand
01EC93 Indic siyaq number eight thousand
01EC94 Indic siyaq number nine thousand
01EC95 Indic siyaq number ten thousand
01EC96 Indic siyaq number twenty thousand
01EC97 Indic siyaq number thirty thousand
01EC98 Indic siyaq number forty thousand
01EC99 Indic siyaq number fifty thousand
01EC9A Indic siyaq number sixty thousand
01EC9B Indic siyaq number seventy thousand
01EC9C Indic siyaq number eighty thousand
01EC9D Indic siyaq number ninety thousand
01EC9E Indic siyaq number lakh
01EC9F Indic siyaq number lakhan
01ECA0 Indic siyaq lakh mark
01ECA1 Indic siyaq number karor
01ECA2 Indic siyaq number karoran
01ECA3 Indic siyaq number prefixed one
01ECA4 Indic siyaq number prefixed two
01ECA5 Indic siyaq number prefixed three
01ECA6 Indic siyaq number prefixed four
01ECA7 Indic siyaq number prefixed five
01ECA8 Indic siyaq number prefixed six
01ECA9 Indic siyaq number prefixed seven
01ECAA Indic siyaq number prefixed eight
01ECAB Indic siyaq number prefixed nine
01ECAC Indic siyaq placeholder
01ECAD Indic siyaq fraction one quarter
01ECAE Indic siyaq fraction one half
01ECAF Indic siyaq fraction three quarters
01ECB0 Indic siyaq rupee mark
01ECB1 Indic siyaq number alternate one
01ECB2 Indic siyaq number alternate two
01ECB3 Indic siyaq number alternate ten thousand
01ECB4 Indic siyaq alternate lakh mark
01ED01 Ottoman siyaq number one
01ED02 Ottoman siyaq number two
01ED03 Ottoman siyaq number three
01ED04 Ottoman siyaq number four
01ED05 Ottoman siyaq number five
01ED06 Ottoman siyaq number six
01ED07 Ottoman siyaq number seven
01ED08 Ottoman siyaq number eight
01ED09 Ottoman siyaq number nine
01ED0A Ottoman siyaq number ten
01ED0B Ottoman siyaq number twenty
01ED0C Ottoman siyaq number thirty
01ED0D Ottoman siyaq number forty
01ED0E Ottoman siyaq number fifty
01ED0F Ottoman siyaq number sixty
01ED10 Ottoman siyaq number seventy
01ED11 Ottoman siyaq number eighty
01ED12 Ottoman siyaq number ninety
01ED13 Ottoman siyaq number one hundred
01ED14 Ottoman siyaq number two hundred
01ED15 Ottoman siyaq number three hundred
01ED16 Ottoman siyaq number four hundred
01ED17 Ottoman siyaq number five hundred
01ED18 Ottoman siyaq number six hundred
01ED19 Ottoman siyaq number seven hundred
01ED1A Ottoman siyaq number eight hundred
01ED1B Ottoman siyaq number nine hundred
01ED1C Ottoman siyaq number one thousand
01ED1D Ottoman siyaq number two thousand
01ED1E Ottoman siyaq number three thousand
01ED1F Ottoman siyaq number four thousand
01ED20 Ottoman siyaq number five thousand
01ED21 Ottoman siyaq number six thousand
01ED22 Ottoman siyaq number seven thousand
01ED23 Ottoman siyaq number eight thousand
01ED24 Ottoman siyaq number nine thousand
01ED25 Ottoman siyaq number ten thousand
01ED26 Ottoman siyaq number twenty thousand
01ED27 Ottoman siyaq number thirty thousand
01ED28 Ottoman siyaq number forty thousand
01ED29 Ottoman siyaq number fifty thousand
01ED2A Ottoman siyaq number sixty thousand
01ED2B Ottoman siyaq number seventy thousand
01ED2C Ottoman siyaq number eighty thousand
01ED2D Ottoman siyaq number ninety thousand
01ED2E Ottoman siyaq marratan
01ED2F Ottoman siyaq alternate number two
01ED30 Ottoman siyaq alternate number three
01ED31 Ottoman siyaq alternate number four
01ED32 Ottoman siyaq alternate number five
01ED33 Ottoman siyaq alternate number six
01ED34 Ottoman siyaq alternate number seven
01ED35 Ottoman siyaq alternate number eight
01ED36 Ottoman siyaq alternate number nine
01ED37 Ottoman siyaq alternate number ten
01ED38 Ottoman siyaq alternate number four hundred
01ED39 Ottoman siyaq alternate number six hundred
01ED3A Ottoman siyaq alternate number two thousand
01ED3B Ottoman siyaq alternate number ten thousand
01ED3C Ottoman siyaq fraction one half
01ED3D Ottoman siyaq fraction one sixth
01EE00 Arabic mathematical alef
01EE01 Arabic mathematical beh
01EE02 Arabic mathematical jeem
01EE03 Arabic mathematical dal
01EE05 Arabic mathematical waw
01EE06 Arabic mathematical zain
01EE07 Arabic mathematical hah
01EE08 Arabic mathematical tah
01EE09 Arabic mathematical yeh
01EE0A Arabic mathematical kaf
01EE0B Arabic mathematical lam
01EE0C Arabic mathematical meem
01EE0D Arabic mathematical noon
01EE0E Arabic mathematical seen
01EE0F Arabic mathematical ain
01EE10 Arabic mathematical feh
01EE11 Arabic mathematical sad
01EE12 Arabic mathematical qaf
01EE13 Arabic mathematical reh
01EE14 Arabic mathematical sheen
01EE15 Arabic mathematical teh
01EE16 Arabic mathematical theh
01EE17 Arabic mathematical khah
01EE18 Arabic mathematical thal
01EE19 Arabic mathematical dad
01EE1A Arabic mathematical zah
01EE1B Arabic mathematical ghain
01EE1C Arabic mathematical dotless beh
01EE1D Arabic mathematical dotless noon
01EE1E Arabic mathematical dotless feh
01EE1F Arabic mathematical dotless qaf
01EE21 Arabic mathematical initial beh
01EE22 Arabic mathematical initial jeem
01EE24 Arabic mathematical initial heh
01EE27 Arabic mathematical initial hah
01EE29 Arabic mathematical initial yeh
01EE2A Arabic mathematical initial kaf
01EE2B Arabic mathematical initial lam
01EE2C Arabic mathematical initial meem
01EE2D Arabic mathematical initial noon
01EE2E Arabic mathematical initial seen
01EE2F Arabic mathematical initial ain
01EE30 Arabic mathematical initial feh
01EE31 Arabic mathematical initial sad
01EE32 Arabic mathematical initial qaf
01EE34 Arabic mathematical initial sheen
01EE35 Arabic mathematical initial teh
01EE36 Arabic mathematical initial theh
01EE37 Arabic mathematical initial khah
01EE39 Arabic mathematical initial dad
01EE3B Arabic mathematical initial ghain
01EE42 Arabic mathematical tailed jeem
01EE47 Arabic mathematical tailed hah
01EE49 Arabic mathematical tailed yeh
01EE4B Arabic mathematical tailed lam
01EE4D Arabic mathematical tailed noon
01EE4E Arabic mathematical tailed seen
01EE4F Arabic mathematical tailed ain
01EE51 Arabic mathematical tailed sad
01EE52 Arabic mathematical tailed qaf
01EE54 Arabic mathematical tailed sheen
01EE57 Arabic mathematical tailed khah
01EE59 Arabic mathematical tailed dad
01EE5B Arabic mathematical tailed ghain
01EE5D Arabic mathematical tailed dotless noon
01EE5F Arabic mathematical tailed dotless qaf
01EE61 Arabic mathematical stretched beh
01EE62 Arabic mathematical stretched jeem
01EE64 Arabic mathematical stretched heh
01EE67 Arabic mathematical stretched hah
01EE68 Arabic mathematical stretched tah
01EE69 Arabic mathematical stretched yeh
01EE6A Arabic mathematical stretched kaf
01EE6C Arabic mathematical stretched meem
01EE6D Arabic mathematical stretched noon
01EE6E Arabic mathematical stretched seen
01EE6F Arabic mathematical stretched ain
01EE70 Arabic mathematical stretched feh
01EE71 Arabic mathematical stretched sad
01EE72 Arabic mathematical stretched qaf
01EE74 Arabic mathematical stretched sheen
01EE75 Arabic mathematical stretched teh
01EE76 Arabic mathematical stretched theh
01EE77 Arabic mathematical stretched khah
01EE79 Arabic mathematical stretched dad
01EE7A Arabic mathematical stretched zah
01EE7B Arabic mathematical stretched ghain
01EE7C Arabic mathematical stretched dotless beh
01EE7E Arabic mathematical stretched dotless feh
01EE80 Arabic mathematical looped alef
01EE81 Arabic mathematical looped beh
01EE82 Arabic mathematical looped jeem
01EE83 Arabic mathematical looped dal
01EE84 Arabic mathematical looped heh
01EE85 Arabic mathematical looped waw
01EE86 Arabic mathematical looped zain
01EE87 Arabic mathematical looped hah
01EE88 Arabic mathematical looped tah
01EE89 Arabic mathematical looped yeh
01EE8B Arabic mathematical looped lam
01EE8C Arabic mathematical looped meem
01EE8D Arabic mathematical looped noon
01EE8E Arabic mathematical looped seen
01EE8F Arabic mathematical looped ain
01EE90 Arabic mathematical looped feh
01EE91 Arabic mathematical looped sad
01EE92 Arabic mathematical looped qaf
01EE93 Arabic mathematical looped reh
01EE94 Arabic mathematical looped sheen
01EE95 Arabic mathematical looped teh
01EE96 Arabic mathematical looped theh
01EE97 Arabic mathematical looped khah
01EE98 Arabic mathematical looped thal
01EE99 Arabic mathematical looped dad
01EE9A Arabic mathematical looped zah
01EE9B Arabic mathematical looped ghain
01EEA1 Arabic mathematical double-struck beh
01EEA2 Arabic mathematical double-struck jeem
01EEA3 Arabic mathematical double-struck dal
01EEA5 Arabic mathematical double-struck waw
01EEA6 Arabic mathematical double-struck zain
01EEA7 Arabic mathematical double-struck hah
01EEA8 Arabic mathematical double-struck tah
01EEA9 Arabic mathematical double-struck yeh
01EEAB Arabic mathematical double-struck lam
01EEAC Arabic mathematical double-struck meem
01EEAD Arabic mathematical double-struck noon
01EEAE Arabic mathematical double-struck seen
01EEAF Arabic mathematical double-struck ain
01EEB0 Arabic mathematical double-struck feh
01EEB1 Arabic mathematical double-struck sad
01EEB2 Arabic mathematical double-struck qaf
01EEB3 Arabic mathematical double-struck reh
01EEB4 Arabic mathematical double-struck sheen
01EEB5 Arabic mathematical double-struck teh
01EEB6 Arabic mathematical double-struck theh
01EEB7 Arabic mathematical double-struck khah
01EEB8 Arabic mathematical double-struck thal
01EEB9 Arabic mathematical double-struck dad
01EEBA Arabic mathematical double-struck zah
01EEBB Arabic mathematical double-struck ghain
01EEF0 Arabic mathematical operator meem with hah with tatweel
01EEF1 Arabic mathematical operator hah with dal
01F000 Mahjong tile east wind
01F001 Mahjong tile south wind
01F002 Mahjong tile west wind
01F003 Mahjong tile north wind
01F004 Mahjong tile red dragon
01F005 Mahjong tile green dragon
01F006 Mahjong tile white dragon
01F007 Mahjong tile one of characters
01F008 Mahjong tile two of characters
01F009 Mahjong tile three of characters
01F00A Mahjong tile four of characters
01F00B Mahjong tile five of characters
01F00C Mahjong tile six of characters
01F00D Mahjong tile seven of characters
01F00E Mahjong tile eight of characters
01F00F Mahjong tile nine of characters
01F010 Mahjong tile one of bamboos
01F011 Mahjong tile two of bamboos
01F012 Mahjong tile three of bamboos
01F013 Mahjong tile four of bamboos
01F014 Mahjong tile five of bamboos
01F015 Mahjong tile six of bamboos
01F016 Mahjong tile seven of bamboos
01F017 Mahjong tile eight of bamboos
01F018 Mahjong tile nine of bamboos
01F019 Mahjong tile one of circles
01F01A Mahjong tile two of circles
01F01B Mahjong tile three of circles
01F01C Mahjong tile four of circles
01F01D Mahjong tile five of circles
01F01E Mahjong tile six of circles
01F01F Mahjong tile seven of circles
01F020 Mahjong tile eight of circles
01F021 Mahjong tile nine of circles
01F022 Mahjong tile plum
01F023 Mahjong tile orchid
01F024 Mahjong tile bamboo
01F025 Mahjong tile chrysanthemum
01F026 Mahjong tile spring
01F027 Mahjong tile summer
01F028 Mahjong tile autumn
01F029 Mahjong tile winter
01F02A Mahjong tile joker
01F02B Mahjong tile back
01F030 Domino tile horizontal back
01F031 Domino tile horizontal-00-00
01F032 Domino tile horizontal-00-01
01F033 Domino tile horizontal-00-02
01F034 Domino tile horizontal-00-03
01F035 Domino tile horizontal-00-04
01F036 Domino tile horizontal-00-05
01F037 Domino tile horizontal-00-06
01F038 Domino tile horizontal-01-00
01F039 Domino tile horizontal-01-01
01F03A Domino tile horizontal-01-02
01F03B Domino tile horizontal-01-03
01F03C Domino tile horizontal-01-04
01F03D Domino tile horizontal-01-05
01F03E Domino tile horizontal-01-06
01F03F Domino tile horizontal-02-00
01F040 Domino tile horizontal-02-01
01F041 Domino tile horizontal-02-02
01F042 Domino tile horizontal-02-03
01F043 Domino tile horizontal-02-04
01F044 Domino tile horizontal-02-05
01F045 Domino tile horizontal-02-06
01F046 Domino tile horizontal-03-00
01F047 Domino tile horizontal-03-01
01F048 Domino tile horizontal-03-02
01F049 Domino tile horizontal-03-03
01F04A Domino tile horizontal-03-04
01F04B Domino tile horizontal-03-05
01F04C Domino tile horizontal-03-06
01F04D Domino tile horizontal-04-00
01F04E Domino tile horizontal-04-01
01F04F Domino tile horizontal-04-02
01F050 Domino tile horizontal-04-03
01F051 Domino tile horizontal-04-04
01F052 Domino tile horizontal-04-05
01F053 Domino tile horizontal-04-06
01F054 Domino tile horizontal-05-00
01F055 Domino tile horizontal-05-01
01F056 Domino tile horizontal-05-02
01F057 Domino tile horizontal-05-03
01F058 Domino tile horizontal-05-04
01F059 Domino tile horizontal-05-05
01F05A Domino tile horizontal-05-06
01F05B Domino tile horizontal-06-00
01F05C Domino tile horizontal-06-01
01F05D Domino tile horizontal-06-02
01F05E Domino tile horizontal-06-03
01F05F Domino tile horizontal-06-04
01F060 Domino tile horizontal-06-05
01F061 Domino tile horizontal-06-06
01F062 Domino tile vertical back
01F063 Domino tile vertical-00-00
01F064 Domino tile vertical-00-01
01F065 Domino tile vertical-00-02
01F066 Domino tile vertical-00-03
01F067 Domino tile vertical-00-04
";

pub const NAMES_76: &'static str = "01F068 Domino tile vertical-00-05
01F069 Domino tile vertical-00-06
01F06A Domino tile vertical-01-00
01F06B Domino tile vertical-01-01
01F06C Domino tile vertical-01-02
01F06D Domino tile vertical-01-03
01F06E Domino tile vertical-01-04
01F06F Domino tile vertical-01-05
01F070 Domino tile vertical-01-06
01F071 Domino tile vertical-02-00
01F072 Domino tile vertical-02-01
01F073 Domino tile vertical-02-02
01F074 Domino tile vertical-02-03
01F075 Domino tile vertical-02-04
01F076 Domino tile vertical-02-05
01F077 Domino tile vertical-02-06
01F078 Domino tile vertical-03-00
01F079 Domino tile vertical-03-01
01F07A Domino tile vertical-03-02
01F07B Domino tile vertical-03-03
01F07C Domino tile vertical-03-04
01F07D Domino tile vertical-03-05
01F07E Domino tile vertical-03-06
01F07F Domino tile vertical-04-00
01F080 Domino tile vertical-04-01
01F081 Domino tile vertical-04-02
01F082 Domino tile vertical-04-03
01F083 Domino tile vertical-04-04
01F084 Domino tile vertical-04-05
01F085 Domino tile vertical-04-06
01F086 Domino tile vertical-05-00
01F087 Domino tile vertical-05-01
01F088 Domino tile vertical-05-02
01F089 Domino tile vertical-05-03
01F08A Domino tile vertical-05-04
01F08B Domino tile vertical-05-05
01F08C Domino tile vertical-05-06
01F08D Domino tile vertical-06-00
01F08E Domino tile vertical-06-01
01F08F Domino tile vertical-06-02
01F090 Domino tile vertical-06-03
01F091 Domino tile vertical-06-04
01F092 Domino tile vertical-06-05
01F093 Domino tile vertical-06-06
01F0A0 Playing card back
01F0A1 Playing card ace of spades
01F0A2 Playing card two of spades
01F0A3 Playing card three of spades
01F0A4 Playing card four of spades
01F0A5 Playing card five of spades
01F0A6 Playing card six of spades
01F0A7 Playing card seven of spades
01F0A8 Playing card eight of spades
01F0A9 Playing card nine of spades
01F0AA Playing card ten of spades
01F0AB Playing card jack of spades
01F0AC Playing card knight of spades
01F0AD Playing card queen of spades
01F0AE Playing card king of spades
01F0B1 Playing card ace of hearts
01F0B2 Playing card two of hearts
01F0B3 Playing card three of hearts
01F0B4 Playing card four of hearts
01F0B5 Playing card five of hearts
01F0B6 Playing card six of hearts
01F0B7 Playing card seven of hearts
01F0B8 Playing card eight of hearts
01F0B9 Playing card nine of hearts
01F0BA Playing card ten of hearts
01F0BB Playing card jack of hearts
01F0BC Playing card knight of hearts
01F0BD Playing card queen of hearts
01F0BE Playing card king of hearts
01F0BF Playing card red joker
01F0C1 Playing card ace of diamonds
01F0C2 Playing card two of diamonds
01F0C3 Playing card three of diamonds
01F0C4 Playing card four of diamonds
01F0C5 Playing card five of diamonds
01F0C6 Playing card six of diamonds
01F0C7 Playing card seven of diamonds
01F0C8 Playing card eight of diamonds
01F0C9 Playing card nine of diamonds
01F0CA Playing card ten of diamonds
01F0CB Playing card jack of diamonds
01F0CC Playing card knight of diamonds
01F0CD Playing card queen of diamonds
01F0CE Playing card king of diamonds
01F0CF Playing card black joker
01F0D1 Playing card ace of clubs
01F0D2 Playing card two of clubs
01F0D3 Playing card three of clubs
01F0D4 Playing card four of clubs
01F0D5 Playing card five of clubs
01F0D6 Playing card six of clubs
01F0D7 Playing card seven of clubs
01F0D8 Playing card eight of clubs
01F0D9 Playing card nine of clubs
01F0DA Playing card ten of clubs
01F0DB Playing card jack of clubs
01F0DC Playing card knight of clubs
01F0DD Playing card queen of clubs
01F0DE Playing card king of clubs
01F0DF Playing card white joker
01F0E0 Playing card fool
01F0E1 Playing card trump-1
01F0E2 Playing card trump-2
01F0E3 Playing card trump-3
01F0E4 Playing card trump-4
01F0E5 Playing card trump-5
01F0E6 Playing card trump-6
01F0E7 Playing card trump-7
01F0E8 Playing card trump-8
01F0E9 Playing card trump-9
01F0EA Playing card trump-10
01F0EB Playing card trump-11
01F0EC Playing card trump-12
01F0ED Playing card trump-13
01F0EE Playing card trump-14
01F0EF Playing card trump-15
01F0F0 Playing card trump-16
01F0F1 Playing card trump-17
01F0F2 Playing card trump-18
01F0F3 Playing card trump-19
01F0F4 Playing card trump-20
01F0F5 Playing card trump-21
01F100 Digit zero full stop
01F101 Digit zero comma
01F102 Digit one comma
01F103 Digit two comma
01F104 Digit three comma
01F105 Digit four comma
01F106 Digit five comma
01F107 Digit six comma
01F108 Digit seven comma
01F109 Digit eight comma
01F10A Digit nine comma
01F10B Dingbat circled sans-serif digit zero
01F10C Dingbat negative circled sans-serif digit zero
01F10D Circled zero with slash
01F10E Circled anticlockwise arrow
01F10F Circled dollar sign with overlaid backslash
01F110 Parenthesized latin capital letter a
01F111 Parenthesized latin capital letter b
01F112 Parenthesized latin capital letter c
01F113 Parenthesized latin capital letter d
01F114 Parenthesized latin capital letter e
01F115 Parenthesized latin capital letter f
01F116 Parenthesized latin capital letter g
01F117 Parenthesized latin capital letter h
01F118 Parenthesized latin capital letter i
01F119 Parenthesized latin capital letter j
01F11A Parenthesized latin capital letter k
01F11B Parenthesized latin capital letter l
01F11C Parenthesized latin capital letter m
01F11D Parenthesized latin capital letter n
01F11E Parenthesized latin capital letter o
01F11F Parenthesized latin capital letter p
01F120 Parenthesized latin capital letter q
01F121 Parenthesized latin capital letter r
01F122 Parenthesized latin capital letter s
01F123 Parenthesized latin capital letter t
01F124 Parenthesized latin capital letter u
01F125 Parenthesized latin capital letter v
01F126 Parenthesized latin capital letter w
01F127 Parenthesized latin capital letter x
01F128 Parenthesized latin capital letter y
01F129 Parenthesized latin capital letter z
01F12A Tortoise shell bracketed latin capital letter s
01F12B Circled italic latin capital letter c
01F12C Circled italic latin capital letter r
01F12D Circled cd
01F12E Circled wz
01F12F Copyleft symbol
01F130 Squared latin capital letter a
01F131 Squared latin capital letter b
01F132 Squared latin capital letter c
01F133 Squared latin capital letter d
01F134 Squared latin capital letter e
01F135 Squared latin capital letter f
01F136 Squared latin capital letter g
01F137 Squared latin capital letter h
01F138 Squared latin capital letter i
01F139 Squared latin capital letter j
01F13A Squared latin capital letter k
01F13B Squared latin capital letter l
01F13C Squared latin capital letter m
01F13D Squared latin capital letter n
01F13E Squared latin capital letter o
01F13F Squared latin capital letter p
01F140 Squared latin capital letter q
01F141 Squared latin capital letter r
01F142 Squared latin capital letter s
01F143 Squared latin capital letter t
01F144 Squared latin capital letter u
01F145 Squared latin capital letter v
01F146 Squared latin capital letter w
01F147 Squared latin capital letter x
01F148 Squared latin capital letter y
01F149 Squared latin capital letter z
01F14A Squared hv
01F14B Squared mv
01F14C Squared sd
01F14D Squared ss
01F14E Squared ppv
01F14F Squared wc
01F150 Negative circled latin capital letter a
01F151 Negative circled latin capital letter b
01F152 Negative circled latin capital letter c
01F153 Negative circled latin capital letter d
01F154 Negative circled latin capital letter e
01F155 Negative circled latin capital letter f
01F156 Negative circled latin capital letter g
01F157 Negative circled latin capital letter h
01F158 Negative circled latin capital letter i
01F159 Negative circled latin capital letter j
01F15A Negative circled latin capital letter k
01F15B Negative circled latin capital letter l
01F15C Negative circled latin capital letter m
01F15D Negative circled latin capital letter n
01F15E Negative circled latin capital letter o
01F15F Negative circled latin capital letter p
01F160 Negative circled latin capital letter q
01F161 Negative circled latin capital letter r
01F162 Negative circled latin capital letter s
01F163 Negative circled latin capital letter t
01F164 Negative circled latin capital letter u
01F165 Negative circled latin capital letter v
01F166 Negative circled latin capital letter w
01F167 Negative circled latin capital letter x
01F168 Negative circled latin capital letter y
01F169 Negative circled latin capital letter z
01F16A Raised mc sign
01F16B Raised md sign
01F16C Raised mr sign
01F16D Circled cc
01F16E Circled c with overlaid backslash
01F16F Circled human figure
01F170 Negative squared latin capital letter a
01F171 Negative squared latin capital letter b
01F172 Negative squared latin capital letter c
01F173 Negative squared latin capital letter d
01F174 Negative squared latin capital letter e
01F175 Negative squared latin capital letter f
01F176 Negative squared latin capital letter g
01F177 Negative squared latin capital letter h
01F178 Negative squared latin capital letter i
01F179 Negative squared latin capital letter j
01F17A Negative squared latin capital letter k
01F17B Negative squared latin capital letter l
01F17C Negative squared latin capital letter m
01F17D Negative squared latin capital letter n
01F17E Negative squared latin capital letter o
01F17F Negative squared latin capital letter p
01F180 Negative squared latin capital letter q
01F181 Negative squared latin capital letter r
01F182 Negative squared latin capital letter s
01F183 Negative squared latin capital letter t
01F184 Negative squared latin capital letter u
01F185 Negative squared latin capital letter v
01F186 Negative squared latin capital letter w
01F187 Negative squared latin capital letter x
01F188 Negative squared latin capital letter y
01F189 Negative squared latin capital letter z
01F18A Crossed negative squared latin capital letter p
01F18B Negative squared ic
01F18C Negative squared pa
01F18D Negative squared sa
01F18E Negative squared ab
01F18F Negative squared wc
01F190 Square dj
01F191 Squared cl
01F192 Squared cool
01F193 Squared free
01F194 Squared id
01F195 Squared new
01F196 Squared ng
01F197 Squared ok
01F198 Squared sos
01F199 Squared up with exclamation mark
01F19A Squared vs
01F19B Squared three d
01F19C Squared second screen
01F19D Squared two k
01F19E Squared four k
01F19F Squared eight k
01F1A0 Squared five point one
01F1A1 Squared seven point one
01F1A2 Squared twenty-two point two
01F1A3 Squared sixty p
01F1A4 Squared one hundred twenty p
01F1A5 Squared latin small letter d
01F1A6 Squared hc
01F1A7 Squared hdr
01F1A8 Squared hi-res
01F1A9 Squared lossless
01F1AA Squared shv
01F1AB Squared uhd
01F1AC Squared vod
01F1AD Mask work symbol
01F1E6 Regional indicator symbol letter a
01F1E7 Regional indicator symbol letter b
01F1E8 Regional indicator symbol letter c
01F1E9 Regional indicator symbol letter d
01F1EA Regional indicator symbol letter e
01F1EB Regional indicator symbol letter f
01F1EC Regional indicator symbol letter g
01F1ED Regional indicator symbol letter h
01F1EE Regional indicator symbol letter i
01F1EF Regional indicator symbol letter j
01F1F0 Regional indicator symbol letter k
01F1F1 Regional indicator symbol letter l
01F1F2 Regional indicator symbol letter m
01F1F3 Regional indicator symbol letter n
01F1F4 Regional indicator symbol letter o
01F1F5 Regional indicator symbol letter p
01F1F6 Regional indicator symbol letter q
01F1F7 Regional indicator symbol letter r
01F1F8 Regional indicator symbol letter s
01F1F9 Regional indicator symbol letter t
01F1FA Regional indicator symbol letter u
01F1FB Regional indicator symbol letter v
01F1FC Regional indicator symbol letter w
01F1FD Regional indicator symbol letter x
01F1FE Regional indicator symbol letter y
01F1FF Regional indicator symbol letter z
01F200 Square hiragana hoka
01F201 Squared katakana koko
01F202 Squared katakana sa
01F210 Squared cjk unified ideograph-624b
01F211 Squared cjk unified ideograph-5b57
01F212 Squared cjk unified ideograph-53cc
01F213 Squared katakana de
01F214 Squared cjk unified ideograph-4e8c
01F215 Squared cjk unified ideograph-591a
01F216 Squared cjk unified ideograph-89e3
01F217 Squared cjk unified ideograph-5929
01F218 Squared cjk unified ideograph-4ea4
01F219 Squared cjk unified ideograph-6620
01F21A Squared cjk unified ideograph-7121
01F21B Squared cjk unified ideograph-6599
01F21C Squared cjk unified ideograph-524d
01F21D Squared cjk unified ideograph-5f8c
01F21E Squared cjk unified ideograph-518d
01F21F Squared cjk unified ideograph-65b0
01F220 Squared cjk unified ideograph-521d
01F221 Squared cjk unified ideograph-7d42
01F222 Squared cjk unified ideograph-751f
01F223 Squared cjk unified ideograph-8ca9
01F224 Squared cjk unified ideograph-58f0
01F225 Squared cjk unified ideograph-5439
01F226 Squared cjk unified ideograph-6f14
01F227 Squared cjk unified ideograph-6295
01F228 Squared cjk unified ideograph-6355
01F229 Squared cjk unified ideograph-4e00
01F22A Squared cjk unified ideograph-4e09
01F22B Squared cjk unified ideograph-904a
01F22C Squared cjk unified ideograph-5de6
01F22D Squared cjk unified ideograph-4e2d
01F22E Squared cjk unified ideograph-53f3
01F22F Squared cjk unified ideograph-6307
01F230 Squared cjk unified ideograph-8d70
01F231 Squared cjk unified ideograph-6253
01F232 Squared cjk unified ideograph-7981
01F233 Squared cjk unified ideograph-7a7a
01F234 Squared cjk unified ideograph-5408
01F235 Squared cjk unified ideograph-6e80
01F236 Squared cjk unified ideograph-6709
01F237 Squared cjk unified ideograph-6708
01F238 Squared cjk unified ideograph-7533
01F239 Squared cjk unified ideograph-5272
01F23A Squared cjk unified ideograph-55b6
01F23B Squared cjk unified ideograph-914d
01F240 Tortoise shell bracketed cjk unified ideograph-672c
01F241 Tortoise shell bracketed cjk unified ideograph-4e09
01F242 Tortoise shell bracketed cjk unified ideograph-4e8c
01F243 Tortoise shell bracketed cjk unified ideograph-5b89
01F244 Tortoise shell bracketed cjk unified ideograph-70b9
01F245 Tortoise shell bracketed cjk unified ideograph-6253
";

pub const NAMES_77: &'static str = "01F246 Tortoise shell bracketed cjk unified ideograph-76d7
01F247 Tortoise shell bracketed cjk unified ideograph-52dd
01F248 Tortoise shell bracketed cjk unified ideograph-6557
01F250 Circled ideograph advantage
01F251 Circled ideograph accept
01F260 Rounded symbol for fu
01F261 Rounded symbol for lu
01F262 Rounded symbol for shou
01F263 Rounded symbol for xi
01F264 Rounded symbol for shuangxi
01F265 Rounded symbol for cai
01F300 Cyclone
01F301 Foggy
01F302 Closed umbrella
01F303 Night with stars
01F304 Sunrise over mountains
01F305 Sunrise
01F306 Cityscape at dusk
01F307 Sunset over buildings
01F308 Rainbow
01F309 Bridge at night
01F30A Water wave
01F30B Volcano
01F30C Milky way
01F30D Earth globe europe-africa
01F30E Earth globe americas
01F30F Earth globe asia-australia
01F310 Globe with meridians
01F311 New moon symbol
01F312 Waxing crescent moon symbol
01F313 First quarter moon symbol
01F314 Waxing gibbous moon symbol
01F315 Full moon symbol
01F316 Waning gibbous moon symbol
01F317 Last quarter moon symbol
01F318 Waning crescent moon symbol
01F319 Crescent moon
01F31A New moon with face
01F31B First quarter moon with face
01F31C Last quarter moon with face
01F31D Full moon with face
01F31E Sun with face
01F31F Glowing star
01F320 Shooting star
01F321 Thermometer
01F322 Black droplet
01F323 White sun
01F324 White sun with small cloud
01F325 White sun behind cloud
01F326 White sun behind cloud with rain
01F327 Cloud with rain
01F328 Cloud with snow
01F329 Cloud with lightning
01F32A Cloud with tornado
01F32B Fog
01F32C Wind blowing face
01F32D Hot dog
01F32E Taco
01F32F Burrito
01F330 Chestnut
01F331 Seedling
01F332 Evergreen tree
01F333 Deciduous tree
01F334 Palm tree
01F335 Cactus
01F336 Hot pepper
01F337 Tulip
01F338 Cherry blossom
01F339 Rose
01F33A Hibiscus
01F33B Sunflower
01F33C Blossom
01F33D Ear of maize
01F33E Ear of rice
01F33F Herb
01F340 Four leaf clover
01F341 Maple leaf
01F342 Fallen leaf
01F343 Leaf fluttering in wind
01F344 Mushroom
01F345 Tomato
01F346 Aubergine
01F347 Grapes
01F348 Melon
01F349 Watermelon
01F34A Tangerine
01F34B Lemon
01F34C Banana
01F34D Pineapple
01F34E Red apple
01F34F Green apple
01F350 Pear
01F351 Peach
01F352 Cherries
01F353 Strawberry
01F354 Hamburger
01F355 Slice of pizza
01F356 Meat on bone
01F357 Poultry leg
01F358 Rice cracker
01F359 Rice ball
01F35A Cooked rice
01F35B Curry and rice
01F35C Steaming bowl
01F35D Spaghetti
01F35E Bread
01F35F French fries
01F360 Roasted sweet potato
01F361 Dango
01F362 Oden
01F363 Sushi
01F364 Fried shrimp
01F365 Fish cake with swirl design
01F366 Soft ice cream
01F367 Shaved ice
01F368 Ice cream
01F369 Doughnut
01F36A Cookie
01F36B Chocolate bar
01F36C Candy
01F36D Lollipop
01F36E Custard
01F36F Honey pot
01F370 Shortcake
01F371 Bento box
01F372 Pot of food
01F373 Cooking
01F374 Fork and knife
01F375 Teacup without handle
01F376 Sake bottle and cup
01F377 Wine glass
01F378 Cocktail glass
01F379 Tropical drink
01F37A Beer mug
01F37B Clinking beer mugs
01F37C Baby bottle
01F37D Fork and knife with plate
01F37E Bottle with popping cork
01F37F Popcorn
01F380 Ribbon
01F381 Wrapped present
01F382 Birthday cake
01F383 Jack-o-lantern
01F384 Christmas tree
01F385 Father christmas
01F386 Fireworks
01F387 Firework sparkler
01F388 Balloon
01F389 Party popper
01F38A Confetti ball
01F38B Tanabata tree
01F38C Crossed flags
01F38D Pine decoration
01F38E Japanese dolls
01F38F Carp streamer
01F390 Wind chime
01F391 Moon viewing ceremony
01F392 School satchel
01F393 Graduation cap
01F394 Heart with tip on the left
01F395 Bouquet of flowers
01F396 Military medal
01F397 Reminder ribbon
01F398 Musical keyboard with jacks
01F399 Studio microphone
01F39A Level slider
01F39B Control knobs
01F39C Beamed ascending musical notes
01F39D Beamed descending musical notes
01F39E Film frames
01F39F Admission tickets
01F3A0 Carousel horse
01F3A1 Ferris wheel
01F3A2 Roller coaster
01F3A3 Fishing pole and fish
01F3A4 Microphone
01F3A5 Movie camera
01F3A6 Cinema
01F3A7 Headphone
01F3A8 Artist palette
01F3A9 Top hat
01F3AA Circus tent
01F3AB Ticket
01F3AC Clapper board
01F3AD Performing arts
01F3AE Video game
01F3AF Direct hit
01F3B0 Slot machine
01F3B1 Billiards
01F3B2 Game die
01F3B3 Bowling
01F3B4 Flower playing cards
01F3B5 Musical note
01F3B6 Multiple musical notes
01F3B7 Saxophone
01F3B8 Guitar
01F3B9 Musical keyboard
01F3BA Trumpet
01F3BB Violin
01F3BC Musical score
01F3BD Running shirt with sash
01F3BE Tennis racquet and ball
01F3BF Ski and ski boot
01F3C0 Basketball and hoop
01F3C1 Chequered flag
01F3C2 Snowboarder
01F3C3 Runner
01F3C4 Surfer
01F3C5 Sports medal
01F3C6 Trophy
01F3C7 Horse racing
01F3C8 American football
01F3C9 Rugby football
01F3CA Swimmer
01F3CB Weight lifter
01F3CC Golfer
01F3CD Racing motorcycle
01F3CE Racing car
01F3CF Cricket bat and ball
01F3D0 Volleyball
01F3D1 Field hockey stick and ball
01F3D2 Ice hockey stick and puck
01F3D3 Table tennis paddle and ball
01F3D4 Snow capped mountain
01F3D5 Camping
01F3D6 Beach with umbrella
01F3D7 Building construction
01F3D8 House buildings
01F3D9 Cityscape
01F3DA Derelict house building
01F3DB Classical building
01F3DC Desert
01F3DD Desert island
01F3DE National park
01F3DF Stadium
01F3E0 House building
01F3E1 House with garden
01F3E2 Office building
01F3E3 Japanese post office
01F3E4 European post office
01F3E5 Hospital
01F3E6 Bank
01F3E7 Automated teller machine
01F3E8 Hotel
01F3E9 Love hotel
01F3EA Convenience store
01F3EB School
01F3EC Department store
01F3ED Factory
01F3EE Izakaya lantern
01F3EF Japanese castle
01F3F0 European castle
01F3F1 White pennant
01F3F2 Black pennant
01F3F3 Waving white flag
01F3F4 Waving black flag
01F3F5 Rosette
01F3F6 Black rosette
01F3F7 Label
01F3F8 Badminton racquet and shuttlecock
01F3F9 Bow and arrow
01F3FA Amphora
01F3FB Emoji modifier fitzpatrick type-1-2
01F3FC Emoji modifier fitzpatrick type-3
01F3FD Emoji modifier fitzpatrick type-4
01F3FE Emoji modifier fitzpatrick type-5
01F3FF Emoji modifier fitzpatrick type-6
01F400 Rat
01F401 Mouse
01F402 Ox
01F403 Water buffalo
01F404 Cow
01F405 Tiger
01F406 Leopard
01F407 Rabbit
01F408 Cat
01F409 Dragon
01F40A Crocodile
01F40B Whale
01F40C Snail
01F40D Snake
01F40E Horse
01F40F Ram
01F410 Goat
01F411 Sheep
01F412 Monkey
01F413 Rooster
01F414 Chicken
01F415 Dog
01F416 Pig
01F417 Boar
01F418 Elephant
01F419 Octopus
01F41A Spiral shell
01F41B Bug
01F41C Ant
01F41D Honeybee
01F41E Lady beetle
01F41F Fish
01F420 Tropical fish
01F421 Blowfish
01F422 Turtle
01F423 Hatching chick
01F424 Baby chick
01F425 Front-facing baby chick
01F426 Bird
01F427 Penguin
01F428 Koala
01F429 Poodle
01F42A Dromedary camel
01F42B Bactrian camel
01F42C Dolphin
01F42D Mouse face
01F42E Cow face
01F42F Tiger face
01F430 Rabbit face
01F431 Cat face
01F432 Dragon face
01F433 Spouting whale
01F434 Horse face
01F435 Monkey face
01F436 Dog face
01F437 Pig face
01F438 Frog face
01F439 Hamster face
01F43A Wolf face
01F43B Bear face
01F43C Panda face
01F43D Pig nose
01F43E Paw prints
01F43F Chipmunk
01F440 Eyes
01F441 Eye
01F442 Ear
01F443 Nose
01F444 Mouth
01F445 Tongue
01F446 White up pointing backhand index
01F447 White down pointing backhand index
01F448 White left pointing backhand index
01F449 White right pointing backhand index
01F44A Fisted hand sign
01F44B Waving hand sign
01F44C Ok hand sign
01F44D Thumbs up sign
01F44E Thumbs down sign
01F44F Clapping hands sign
01F450 Open hands sign
01F451 Crown
01F452 Womans hat
01F453 Eyeglasses
01F454 Necktie
01F455 T-shirt
01F456 Jeans
01F457 Dress
01F458 Kimono
01F459 Bikini
01F45A Womans clothes
01F45B Purse
01F45C Handbag
01F45D Pouch
01F45E Mans shoe
01F45F Athletic shoe
01F460 High-heeled shoe
01F461 Womans sandal
01F462 Womans boots
01F463 Footprints
01F464 Bust in silhouette
01F465 Busts in silhouette
01F466 Boy
01F467 Girl
01F468 Man
01F469 Woman
01F46A Family
01F46B Man and woman holding hands
01F46C Two men holding hands
01F46D Two women holding hands
01F46E Police officer
01F46F Woman with bunny ears
01F470 Bride with veil
01F471 Person with blond hair
01F472 Man with gua pi mao
01F473 Man with turban
01F474 Older man
01F475 Older woman
01F476 Baby
01F477 Construction worker
01F478 Princess
01F479 Japanese ogre
01F47A Japanese goblin
01F47B Ghost
01F47C Baby angel
01F47D Extraterrestrial alien
01F47E Alien monster
01F47F Imp
01F480 Skull
01F481 Information desk person
01F482 Guardsman
01F483 Dancer
01F484 Lipstick
01F485 Nail polish
01F486 Face massage
01F487 Haircut
01F488 Barber pole
01F489 Syringe
01F48A Pill
01F48B Kiss mark
01F48C Love letter
01F48D Ring
01F48E Gem stone
01F48F Kiss
01F490 Bouquet
01F491 Couple with heart
01F492 Wedding
01F493 Beating heart
01F494 Broken heart
01F495 Two hearts
01F496 Sparkling heart
01F497 Growing heart
01F498 Heart with arrow
01F499 Blue heart
01F49A Green heart
01F49B Yellow heart
01F49C Purple heart
01F49D Heart with ribbon
01F49E Revolving hearts
01F49F Heart decoration
01F4A0 Diamond shape with a dot inside
01F4A1 Electric light bulb
01F4A2 Anger symbol
01F4A3 Bomb
01F4A4 Sleeping symbol
01F4A5 Collision symbol
01F4A6 Splashing sweat symbol
01F4A7 Droplet
01F4A8 Dash symbol
01F4A9 Pile of poo
01F4AA Flexed biceps
01F4AB Dizzy symbol
01F4AC Speech balloon
01F4AD Thought balloon
01F4AE White flower
01F4AF Hundred points symbol
01F4B0 Money bag
01F4B1 Currency exchange
01F4B2 Heavy dollar sign
01F4B3 Credit card
01F4B4 Banknote with yen sign
01F4B5 Banknote with dollar sign
01F4B6 Banknote with euro sign
01F4B7 Banknote with pound sign
01F4B8 Money with wings
01F4B9 Chart with upwards trend and yen sign
01F4BA Seat
01F4BB Personal computer
01F4BC Briefcase
01F4BD Minidisc
01F4BE Floppy disk
01F4BF Optical disc
01F4C0 Dvd
01F4C1 File folder
01F4C2 Open file folder
01F4C3 Page with curl
01F4C4 Page facing up
01F4C5 Calendar
01F4C6 Tear-off calendar
01F4C7 Card index
01F4C8 Chart with upwards trend
01F4C9 Chart with downwards trend
01F4CA Bar chart
01F4CB Clipboard
01F4CC Pushpin
01F4CD Round pushpin
01F4CE Paperclip
01F4CF Straight ruler
01F4D0 Triangular ruler
01F4D1 Bookmark tabs
01F4D2 Ledger
01F4D3 Notebook
01F4D4 Notebook with decorative cover
01F4D5 Closed book
01F4D6 Open book
01F4D7 Green book
01F4D8 Blue book
01F4D9 Orange book
01F4DA Books
01F4DB Name badge
01F4DC Scroll
01F4DD Memo
01F4DE Telephone receiver
01F4DF Pager
01F4E0 Fax machine
01F4E1 Satellite antenna
01F4E2 Public address loudspeaker
01F4E3 Cheering megaphone
01F4E4 Outbox tray
01F4E5 Inbox tray
01F4E6 Package
01F4E7 E-mail symbol
01F4E8 Incoming envelope
01F4E9 Envelope with downwards arrow above
01F4EA Closed mailbox with lowered flag
01F4EB Closed mailbox with raised flag
01F4EC Open mailbox with raised flag
01F4ED Open mailbox with lowered flag
01F4EE Postbox
01F4EF Postal horn
01F4F0 Newspaper
01F4F1 Mobile phone
01F4F2 Mobile phone with rightwards arrow at left
01F4F3 Vibration mode
01F4F4 Mobile phone off
01F4F5 No mobile phones
01F4F6 Antenna with bars
01F4F7 Camera
01F4F8 Camera with flash
01F4F9 Video camera
01F4FA Television
01F4FB Radio
01F4FC Videocassette
01F4FD Film projector
01F4FE Portable stereo
01F4FF Prayer beads
01F500 Twisted rightwards arrows
01F501 Clockwise rightwards and leftwards open circle arrows
01F502 Clockwise rightwards and leftwards open circle arrows with circled one overlay
01F503 Clockwise downwards and upwards open circle arrows
01F504 Anticlockwise downwards and upwards open circle arrows
01F505 Low brightness symbol
01F506 High brightness symbol
01F507 Speaker with cancellation stroke
01F508 Speaker
01F509 Speaker with one sound wave
01F50A Speaker with three sound waves
01F50B Battery
01F50C Electric plug
01F50D Left-pointing magnifying glass
01F50E Right-pointing magnifying glass
01F50F Lock with ink pen
01F510 Closed lock with key
01F511 Key
01F512 Lock
01F513 Open lock
01F514 Bell
01F515 Bell with cancellation stroke
01F516 Bookmark
01F517 Link symbol
01F518 Radio button
01F519 Back with leftwards arrow above
01F51A End with leftwards arrow above
01F51B On with exclamation mark with left right arrow above
01F51C Soon with rightwards arrow above
01F51D Top with upwards arrow above
01F51E No one under eighteen symbol
01F51F Keycap ten
01F520 Input symbol for latin capital letters
01F521 Input symbol for latin small letters
01F522 Input symbol for numbers
01F523 Input symbol for symbols
01F524 Input symbol for latin letters
01F525 Fire
01F526 Electric torch
01F527 Wrench
01F528 Hammer
01F529 Nut and bolt
01F52A Hocho
01F52B Pistol
01F52C Microscope
01F52D Telescope
01F52E Crystal ball
01F52F Six pointed star with middle dot
01F530 Japanese symbol for beginner
01F531 Trident emblem
01F532 Black square button
01F533 White square button
01F534 Large red circle
01F535 Large blue circle
01F536 Large orange diamond
01F537 Large blue diamond
01F538 Small orange diamond
01F539 Small blue diamond
01F53A Up-pointing red triangle
01F53B Down-pointing red triangle
01F53C Up-pointing small red triangle
01F53D Down-pointing small red triangle
01F53E Lower right shadowed white circle
01F53F Upper right shadowed white circle
01F540 Circled cross pommee
01F541 Cross pommee with half-circle below
01F542 Cross pommee
01F543 Notched left semicircle with three dots
01F544 Notched right semicircle with three dots
01F545 Symbol for marks chapter
01F546 White latin cross
01F547 Heavy latin cross
01F548 Celtic cross
01F549 Om symbol
01F54A Dove of peace
01F54B Kaaba
01F54C Mosque
01F54D Synagogue
01F54E Menorah with nine branches
01F54F Bowl of hygieia
01F550 Clock face one oclock
01F551 Clock face two oclock
01F552 Clock face three oclock
01F553 Clock face four oclock
01F554 Clock face five oclock
01F555 Clock face six oclock
01F556 Clock face seven oclock
01F557 Clock face eight oclock
01F558 Clock face nine oclock
01F559 Clock face ten oclock
01F55A Clock face eleven oclock
01F55B Clock face twelve oclock
01F55C Clock face one-thirty
01F55D Clock face two-thirty
01F55E Clock face three-thirty
01F55F Clock face four-thirty
01F560 Clock face five-thirty
01F561 Clock face six-thirty
";

pub const NAMES_78: &'static str = "01F562 Clock face seven-thirty
01F563 Clock face eight-thirty
01F564 Clock face nine-thirty
01F565 Clock face ten-thirty
01F566 Clock face eleven-thirty
01F567 Clock face twelve-thirty
01F568 Right speaker
01F569 Right speaker with one sound wave
01F56A Right speaker with three sound waves
01F56B Bullhorn
01F56C Bullhorn with sound waves
01F56D Ringing bell
01F56E Book
01F56F Candle
01F570 Mantelpiece clock
01F571 Black skull and crossbones
01F572 No piracy
01F573 Hole
01F574 Man in business suit levitating
01F575 Sleuth or spy
01F576 Dark sunglasses
01F577 Spider
01F578 Spider web
01F579 Joystick
01F57A Man dancing
01F57B Left hand telephone receiver
01F57C Telephone receiver with page
01F57D Right hand telephone receiver
01F57E White touchtone telephone
01F57F Black touchtone telephone
01F580 Telephone on top of modem
01F581 Clamshell mobile phone
01F582 Back of envelope
01F583 Stamped envelope
01F584 Envelope with lightning
01F585 Flying envelope
01F586 Pen over stamped envelope
01F587 Linked paperclips
01F588 Black pushpin
01F589 Lower left pencil
01F58A Lower left ballpoint pen
01F58B Lower left fountain pen
01F58C Lower left paintbrush
01F58D Lower left crayon
01F58E Left writing hand
01F58F Turned ok hand sign
01F590 Raised hand with fingers splayed
01F591 Reversed raised hand with fingers splayed
01F592 Reversed thumbs up sign
01F593 Reversed thumbs down sign
01F594 Reversed victory hand
01F595 Reversed hand with middle finger extended
01F596 Raised hand with part between middle and ring fingers
01F597 White down pointing left hand index
01F598 Sideways white left pointing index
01F599 Sideways white right pointing index
01F59A Sideways black left pointing index
01F59B Sideways black right pointing index
01F59C Black left pointing backhand index
01F59D Black right pointing backhand index
01F59E Sideways white up pointing index
01F59F Sideways white down pointing index
01F5A0 Sideways black up pointing index
01F5A1 Sideways black down pointing index
01F5A2 Black up pointing backhand index
01F5A3 Black down pointing backhand index
01F5A4 Black heart
01F5A5 Desktop computer
01F5A6 Keyboard and mouse
01F5A7 Three networked computers
01F5A8 Printer
01F5A9 Pocket calculator
01F5AA Black hard shell floppy disk
01F5AB White hard shell floppy disk
01F5AC Soft shell floppy disk
01F5AD Tape cartridge
01F5AE Wired keyboard
01F5AF One button mouse
01F5B0 Two button mouse
01F5B1 Three button mouse
01F5B2 Trackball
01F5B3 Old personal computer
01F5B4 Hard disk
01F5B5 Screen
01F5B6 Printer icon
01F5B7 Fax icon
01F5B8 Optical disc icon
01F5B9 Document with text
01F5BA Document with text and picture
01F5BB Document with picture
01F5BC Frame with picture
01F5BD Frame with tiles
01F5BE Frame with an x
01F5BF Black folder
01F5C0 Folder
01F5C1 Open folder
01F5C2 Card index dividers
01F5C3 Card file box
01F5C4 File cabinet
01F5C5 Empty note
01F5C6 Empty note page
01F5C7 Empty note pad
01F5C8 Note
01F5C9 Note page
01F5CA Note pad
01F5CB Empty document
01F5CC Empty page
01F5CD Empty pages
01F5CE Document
01F5CF Page
01F5D0 Pages
01F5D1 Wastebasket
01F5D2 Spiral note pad
01F5D3 Spiral calendar pad
01F5D4 Desktop window
01F5D5 Minimize
01F5D6 Maximize
01F5D7 Overlap
01F5D8 Clockwise right and left semicircle arrows
01F5D9 Cancellation x
01F5DA Increase font size symbol
01F5DB Decrease font size symbol
01F5DC Compression
01F5DD Old key
01F5DE Rolled-up newspaper
01F5DF Page with circled text
01F5E0 Stock chart
01F5E1 Dagger knife
01F5E2 Lips
01F5E3 Speaking head in silhouette
01F5E4 Three rays above
01F5E5 Three rays below
01F5E6 Three rays left
01F5E7 Three rays right
01F5E8 Left speech bubble
01F5E9 Right speech bubble
01F5EA Two speech bubbles
01F5EB Three speech bubbles
01F5EC Left thought bubble
01F5ED Right thought bubble
01F5EE Left anger bubble
01F5EF Right anger bubble
01F5F0 Mood bubble
01F5F1 Lightning mood bubble
01F5F2 Lightning mood
01F5F3 Ballot box with ballot
01F5F4 Ballot script x
01F5F5 Ballot box with script x
01F5F6 Ballot bold script x
01F5F7 Ballot box with bold script x
01F5F8 Light check mark
01F5F9 Ballot box with bold check
01F5FA World map
01F5FB Mount fuji
01F5FC Tokyo tower
01F5FD Statue of liberty
01F5FE Silhouette of japan
01F5FF Moyai
01F600 Grinning face
01F601 Grinning face with smiling eyes
01F602 Face with tears of joy
01F603 Smiling face with open mouth
01F604 Smiling face with open mouth and smiling eyes
01F605 Smiling face with open mouth and cold sweat
01F606 Smiling face with open mouth and tightly-closed eyes
01F607 Smiling face with halo
01F608 Smiling face with horns
01F609 Winking face
01F60A Smiling face with smiling eyes
01F60B Face savouring delicious food
01F60C Relieved face
01F60D Smiling face with heart-shaped eyes
01F60E Smiling face with sunglasses
01F60F Smirking face
01F610 Neutral face
01F611 Expressionless face
01F612 Unamused face
01F613 Face with cold sweat
01F614 Pensive face
01F615 Confused face
01F616 Confounded face
01F617 Kissing face
01F618 Face throwing a kiss
01F619 Kissing face with smiling eyes
01F61A Kissing face with closed eyes
01F61B Face with stuck-out tongue
01F61C Face with stuck-out tongue and winking eye
01F61D Face with stuck-out tongue and tightly-closed eyes
01F61E Disappointed face
01F61F Worried face
01F620 Angry face
01F621 Pouting face
01F622 Crying face
01F623 Persevering face
01F624 Face with look of triumph
01F625 Disappointed but relieved face
01F626 Frowning face with open mouth
01F627 Anguished face
01F628 Fearful face
01F629 Weary face
01F62A Sleepy face
01F62B Tired face
01F62C Grimacing face
01F62D Loudly crying face
01F62E Face with open mouth
01F62F Hushed face
01F630 Face with open mouth and cold sweat
01F631 Face screaming in fear
01F632 Astonished face
01F633 Flushed face
01F634 Sleeping face
01F635 Dizzy face
01F636 Face without mouth
01F637 Face with medical mask
01F638 Grinning cat face with smiling eyes
01F639 Cat face with tears of joy
01F63A Smiling cat face with open mouth
01F63B Smiling cat face with heart-shaped eyes
01F63C Cat face with wry smile
01F63D Kissing cat face with closed eyes
01F63E Pouting cat face
01F63F Crying cat face
01F640 Weary cat face
01F641 Slightly frowning face
01F642 Slightly smiling face
01F643 Upside-down face
01F644 Face with rolling eyes
01F645 Face with no good gesture
01F646 Face with ok gesture
01F647 Person bowing deeply
01F648 See-no-evil monkey
01F649 Hear-no-evil monkey
01F64A Speak-no-evil monkey
01F64B Happy person raising one hand
01F64C Person raising both hands in celebration
01F64D Person frowning
01F64E Person with pouting face
01F64F Person with folded hands
01F650 North west pointing leaf
01F651 South west pointing leaf
01F652 North east pointing leaf
01F653 South east pointing leaf
01F654 Turned north west pointing leaf
01F655 Turned south west pointing leaf
01F656 Turned north east pointing leaf
01F657 Turned south east pointing leaf
01F658 North west pointing vine leaf
01F659 South west pointing vine leaf
01F65A North east pointing vine leaf
01F65B South east pointing vine leaf
01F65C Heavy north west pointing vine leaf
01F65D Heavy south west pointing vine leaf
01F65E Heavy north east pointing vine leaf
01F65F Heavy south east pointing vine leaf
01F660 North west pointing bud
01F661 South west pointing bud
01F662 North east pointing bud
01F663 South east pointing bud
01F664 Heavy north west pointing bud
01F665 Heavy south west pointing bud
01F666 Heavy north east pointing bud
01F667 Heavy south east pointing bud
01F668 Hollow quilt square ornament
01F669 Hollow quilt square ornament in black square
01F66A Solid quilt square ornament
01F66B Solid quilt square ornament in black square
01F66C Leftwards rocket
01F66D Upwards rocket
01F66E Rightwards rocket
01F66F Downwards rocket
01F670 Script ligature et ornament
01F671 Heavy script ligature et ornament
01F672 Ligature open et ornament
01F673 Heavy ligature open et ornament
01F674 Heavy ampersand ornament
01F675 Swash ampersand ornament
01F676 Sans-serif heavy double turned comma quotation mark ornament
01F677 Sans-serif heavy double comma quotation mark ornament
01F678 Sans-serif heavy low double comma quotation mark ornament
01F679 Heavy interrobang ornament
01F67A Sans-serif interrobang ornament
01F67B Heavy sans-serif interrobang ornament
01F67C Very heavy solidus
01F67D Very heavy reverse solidus
01F67E Checker board
01F67F Reverse checker board
01F680 Rocket
01F681 Helicopter
01F682 Steam locomotive
01F683 Railway car
01F684 High-speed train
01F685 High-speed train with bullet nose
01F686 Train
01F687 Metro
01F688 Light rail
01F689 Station
01F68A Tram
01F68B Tram car
01F68C Bus
01F68D Oncoming bus
01F68E Trolleybus
01F68F Bus stop
01F690 Minibus
01F691 Ambulance
01F692 Fire engine
01F693 Police car
01F694 Oncoming police car
01F695 Taxi
01F696 Oncoming taxi
01F697 Automobile
01F698 Oncoming automobile
01F699 Recreational vehicle
01F69A Delivery truck
01F69B Articulated lorry
01F69C Tractor
01F69D Monorail
01F69E Mountain railway
01F69F Suspension railway
01F6A0 Mountain cableway
01F6A1 Aerial tramway
01F6A2 Ship
01F6A3 Rowboat
01F6A4 Speedboat
01F6A5 Horizontal traffic light
01F6A6 Vertical traffic light
01F6A7 Construction sign
01F6A8 Police cars revolving light
01F6A9 Triangular flag on post
01F6AA Door
01F6AB No entry sign
01F6AC Smoking symbol
01F6AD No smoking symbol
01F6AE Put litter in its place symbol
01F6AF Do not litter symbol
01F6B0 Potable water symbol
01F6B1 Non-potable water symbol
01F6B2 Bicycle
01F6B3 No bicycles
01F6B4 Bicyclist
01F6B5 Mountain bicyclist
01F6B6 Pedestrian
01F6B7 No pedestrians
01F6B8 Children crossing
01F6B9 Mens symbol
01F6BA Womens symbol
01F6BB Restroom
01F6BC Baby symbol
01F6BD Toilet
01F6BE Water closet
01F6BF Shower
01F6C0 Bath
01F6C1 Bathtub
01F6C2 Passport control
01F6C3 Customs
01F6C4 Baggage claim
01F6C5 Left luggage
01F6C6 Triangle with rounded corners
01F6C7 Prohibited sign
01F6C8 Circled information source
01F6C9 Boys symbol
01F6CA Girls symbol
01F6CB Couch and lamp
01F6CC Sleeping accommodation
01F6CD Shopping bags
01F6CE Bellhop bell
01F6CF Bed
01F6D0 Place of worship
01F6D1 Octagonal sign
01F6D2 Shopping trolley
01F6D3 Stupa
01F6D4 Pagoda
01F6D5 Hindu temple
01F6D6 Hut
01F6D7 Elevator
01F6DD Playground slide
01F6DE Wheel
01F6DF Ring buoy
01F6E0 Hammer and wrench
01F6E1 Shield
01F6E2 Oil drum
01F6E3 Motorway
01F6E4 Railway track
01F6E5 Motor boat
01F6E6 Up-pointing military airplane
01F6E7 Up-pointing airplane
01F6E8 Up-pointing small airplane
01F6E9 Small airplane
01F6EA Northeast-pointing airplane
01F6EB Airplane departure
01F6EC Airplane arriving
01F6F0 Satellite
01F6F1 Oncoming fire engine
01F6F2 Diesel locomotive
01F6F3 Passenger ship
01F6F4 Scooter
01F6F5 Motor scooter
01F6F6 Canoe
01F6F7 Sled
01F6F8 Flying saucer
01F6F9 Skateboard
01F6FA Auto rickshaw
01F6FB Pickup truck
01F6FC Roller skate
01F700 Alchemical symbol for quintessence
01F701 Alchemical symbol for air
01F702 Alchemical symbol for fire
01F703 Alchemical symbol for earth
01F704 Alchemical symbol for water
01F705 Alchemical symbol for aquafortis
01F706 Alchemical symbol for aqua regia
01F707 Alchemical symbol for aqua regia-2
01F708 Alchemical symbol for aqua vitae
01F709 Alchemical symbol for aqua vitae-2
01F70A Alchemical symbol for vinegar
01F70B Alchemical symbol for vinegar-2
01F70C Alchemical symbol for vinegar-3
01F70D Alchemical symbol for sulfur
01F70E Alchemical symbol for philosophers sulfur
01F70F Alchemical symbol for black sulfur
01F710 Alchemical symbol for mercury sublimate
01F711 Alchemical symbol for mercury sublimate-2
01F712 Alchemical symbol for mercury sublimate-3
01F713 Alchemical symbol for cinnabar
01F714 Alchemical symbol for salt
01F715 Alchemical symbol for nitre
01F716 Alchemical symbol for vitriol
01F717 Alchemical symbol for vitriol-2
01F718 Alchemical symbol for rock salt
01F719 Alchemical symbol for rock salt-2
01F71A Alchemical symbol for gold
01F71B Alchemical symbol for silver
01F71C Alchemical symbol for iron ore
01F71D Alchemical symbol for iron ore-2
01F71E Alchemical symbol for crocus of iron
01F71F Alchemical symbol for regulus of iron
01F720 Alchemical symbol for copper ore
01F721 Alchemical symbol for iron-copper ore
01F722 Alchemical symbol for sublimate of copper
01F723 Alchemical symbol for crocus of copper
01F724 Alchemical symbol for crocus of copper-2
01F725 Alchemical symbol for copper antimoniate
01F726 Alchemical symbol for salt of copper antimoniate
01F727 Alchemical symbol for sublimate of salt of copper
01F728 Alchemical symbol for verdigris
01F729 Alchemical symbol for tin ore
01F72A Alchemical symbol for lead ore
01F72B Alchemical symbol for antimony ore
01F72C Alchemical symbol for sublimate of antimony
01F72D Alchemical symbol for salt of antimony
01F72E Alchemical symbol for sublimate of salt of antimony
01F72F Alchemical symbol for vinegar of antimony
01F730 Alchemical symbol for regulus of antimony
01F731 Alchemical symbol for regulus of antimony-2
01F732 Alchemical symbol for regulus
01F733 Alchemical symbol for regulus-2
01F734 Alchemical symbol for regulus-3
01F735 Alchemical symbol for regulus-4
01F736 Alchemical symbol for alkali
01F737 Alchemical symbol for alkali-2
01F738 Alchemical symbol for marcasite
01F739 Alchemical symbol for sal-ammoniac
01F73A Alchemical symbol for arsenic
01F73B Alchemical symbol for realgar
01F73C Alchemical symbol for realgar-2
01F73D Alchemical symbol for auripigment
01F73E Alchemical symbol for bismuth ore
01F73F Alchemical symbol for tartar
01F740 Alchemical symbol for tartar-2
01F741 Alchemical symbol for quick lime
01F742 Alchemical symbol for borax
01F743 Alchemical symbol for borax-2
01F744 Alchemical symbol for borax-3
01F745 Alchemical symbol for alum
01F746 Alchemical symbol for oil
01F747 Alchemical symbol for spirit
01F748 Alchemical symbol for tincture
01F749 Alchemical symbol for gum
01F74A Alchemical symbol for wax
01F74B Alchemical symbol for powder
01F74C Alchemical symbol for calx
";

pub const NAMES_79: &'static str = "01F74D Alchemical symbol for tutty
01F74E Alchemical symbol for caput mortuum
01F74F Alchemical symbol for scepter of jove
01F750 Alchemical symbol for caduceus
01F751 Alchemical symbol for trident
01F752 Alchemical symbol for starred trident
01F753 Alchemical symbol for lodestone
01F754 Alchemical symbol for soap
01F755 Alchemical symbol for urine
01F756 Alchemical symbol for horse dung
01F757 Alchemical symbol for ashes
01F758 Alchemical symbol for pot ashes
01F759 Alchemical symbol for brick
01F75A Alchemical symbol for powdered brick
01F75B Alchemical symbol for amalgam
01F75C Alchemical symbol for stratum super stratum
01F75D Alchemical symbol for stratum super stratum-2
01F75E Alchemical symbol for sublimation
01F75F Alchemical symbol for precipitate
01F760 Alchemical symbol for distill
01F761 Alchemical symbol for dissolve
01F762 Alchemical symbol for dissolve-2
01F763 Alchemical symbol for purify
01F764 Alchemical symbol for putrefaction
01F765 Alchemical symbol for crucible
01F766 Alchemical symbol for crucible-2
01F767 Alchemical symbol for crucible-3
01F768 Alchemical symbol for crucible-4
01F769 Alchemical symbol for crucible-5
01F76A Alchemical symbol for alembic
01F76B Alchemical symbol for bath of mary
01F76C Alchemical symbol for bath of vapours
01F76D Alchemical symbol for retort
01F76E Alchemical symbol for hour
01F76F Alchemical symbol for night
01F770 Alchemical symbol for day-night
01F771 Alchemical symbol for month
01F772 Alchemical symbol for half dram
01F773 Alchemical symbol for half ounce
01F780 Black left-pointing isosceles right triangle
01F781 Black up-pointing isosceles right triangle
01F782 Black right-pointing isosceles right triangle
01F783 Black down-pointing isosceles right triangle
01F784 Black slightly small circle
01F785 Medium bold white circle
01F786 Bold white circle
01F787 Heavy white circle
01F788 Very heavy white circle
01F789 Extremely heavy white circle
01F78A White circle containing black small circle
01F78B Round target
01F78C Black tiny square
01F78D Black slightly small square
01F78E Light white square
01F78F Medium white square
01F790 Bold white square
01F791 Heavy white square
01F792 Very heavy white square
01F793 Extremely heavy white square
01F794 White square containing black very small square
01F795 White square containing black medium square
01F796 Square target
01F797 Black tiny diamond
01F798 Black very small diamond
01F799 Black medium small diamond
01F79A White diamond containing black very small diamond
01F79B White diamond containing black medium diamond
01F79C Diamond target
01F79D Black tiny lozenge
01F79E Black very small lozenge
01F79F Black medium small lozenge
01F7A0 White lozenge containing black small lozenge
01F7A1 Thin greek cross
01F7A2 Light greek cross
01F7A3 Medium greek cross
01F7A4 Bold greek cross
01F7A5 Very bold greek cross
01F7A6 Very heavy greek cross
01F7A7 Extremely heavy greek cross
01F7A8 Thin saltire
01F7A9 Light saltire
01F7AA Medium saltire
01F7AB Bold saltire
01F7AC Heavy saltire
01F7AD Very heavy saltire
01F7AE Extremely heavy saltire
01F7AF Light five spoked asterisk
01F7B0 Medium five spoked asterisk
01F7B1 Bold five spoked asterisk
01F7B2 Heavy five spoked asterisk
01F7B3 Very heavy five spoked asterisk
01F7B4 Extremely heavy five spoked asterisk
01F7B5 Light six spoked asterisk
01F7B6 Medium six spoked asterisk
01F7B7 Bold six spoked asterisk
01F7B8 Heavy six spoked asterisk
01F7B9 Very heavy six spoked asterisk
01F7BA Extremely heavy six spoked asterisk
01F7BB Light eight spoked asterisk
01F7BC Medium eight spoked asterisk
01F7BD Bold eight spoked asterisk
01F7BE Heavy eight spoked asterisk
01F7BF Very heavy eight spoked asterisk
01F7C0 Light three pointed black star
01F7C1 Medium three pointed black star
01F7C2 Three pointed black star
01F7C3 Medium three pointed pinwheel star
01F7C4 Light four pointed black star
01F7C5 Medium four pointed black star
01F7C6 Four pointed black star
01F7C7 Medium four pointed pinwheel star
01F7C8 Reverse light four pointed pinwheel star
01F7C9 Light five pointed black star
01F7CA Heavy five pointed black star
01F7CB Medium six pointed black star
01F7CC Heavy six pointed black star
01F7CD Six pointed pinwheel star
01F7CE Medium eight pointed black star
01F7CF Heavy eight pointed black star
01F7D0 Very heavy eight pointed black star
01F7D1 Heavy eight pointed pinwheel star
01F7D2 Light twelve pointed black star
01F7D3 Heavy twelve pointed black star
01F7D4 Heavy twelve pointed pinwheel star
01F7D5 Circled triangle
01F7D6 Negative circled triangle
01F7D7 Circled square
01F7D8 Negative circled square
01F7E0 Large orange circle
01F7E1 Large yellow circle
01F7E2 Large green circle
01F7E3 Large purple circle
01F7E4 Large brown circle
01F7E5 Large red square
01F7E6 Large blue square
01F7E7 Large orange square
01F7E8 Large yellow square
01F7E9 Large green square
01F7EA Large purple square
01F7EB Large brown square
01F7F0 Heavy equals sign
01F800 Leftwards arrow with small triangle arrowhead
01F801 Upwards arrow with small triangle arrowhead
01F802 Rightwards arrow with small triangle arrowhead
01F803 Downwards arrow with small triangle arrowhead
01F804 Leftwards arrow with medium triangle arrowhead
01F805 Upwards arrow with medium triangle arrowhead
01F806 Rightwards arrow with medium triangle arrowhead
01F807 Downwards arrow with medium triangle arrowhead
01F808 Leftwards arrow with large triangle arrowhead
01F809 Upwards arrow with large triangle arrowhead
01F80A Rightwards arrow with large triangle arrowhead
01F80B Downwards arrow with large triangle arrowhead
01F810 Leftwards arrow with small equilateral arrowhead
01F811 Upwards arrow with small equilateral arrowhead
01F812 Rightwards arrow with small equilateral arrowhead
01F813 Downwards arrow with small equilateral arrowhead
01F814 Leftwards arrow with equilateral arrowhead
01F815 Upwards arrow with equilateral arrowhead
01F816 Rightwards arrow with equilateral arrowhead
01F817 Downwards arrow with equilateral arrowhead
01F818 Heavy leftwards arrow with equilateral arrowhead
01F819 Heavy upwards arrow with equilateral arrowhead
01F81A Heavy rightwards arrow with equilateral arrowhead
01F81B Heavy downwards arrow with equilateral arrowhead
01F81C Heavy leftwards arrow with large equilateral arrowhead
01F81D Heavy upwards arrow with large equilateral arrowhead
01F81E Heavy rightwards arrow with large equilateral arrowhead
01F81F Heavy downwards arrow with large equilateral arrowhead
01F820 Leftwards triangle-headed arrow with narrow shaft
01F821 Upwards triangle-headed arrow with narrow shaft
01F822 Rightwards triangle-headed arrow with narrow shaft
01F823 Downwards triangle-headed arrow with narrow shaft
01F824 Leftwards triangle-headed arrow with medium shaft
01F825 Upwards triangle-headed arrow with medium shaft
01F826 Rightwards triangle-headed arrow with medium shaft
01F827 Downwards triangle-headed arrow with medium shaft
01F828 Leftwards triangle-headed arrow with bold shaft
01F829 Upwards triangle-headed arrow with bold shaft
01F82A Rightwards triangle-headed arrow with bold shaft
01F82B Downwards triangle-headed arrow with bold shaft
01F82C Leftwards triangle-headed arrow with heavy shaft
01F82D Upwards triangle-headed arrow with heavy shaft
01F82E Rightwards triangle-headed arrow with heavy shaft
01F82F Downwards triangle-headed arrow with heavy shaft
01F830 Leftwards triangle-headed arrow with very heavy shaft
01F831 Upwards triangle-headed arrow with very heavy shaft
01F832 Rightwards triangle-headed arrow with very heavy shaft
01F833 Downwards triangle-headed arrow with very heavy shaft
01F834 Leftwards finger-post arrow
01F835 Upwards finger-post arrow
01F836 Rightwards finger-post arrow
01F837 Downwards finger-post arrow
01F838 Leftwards squared arrow
01F839 Upwards squared arrow
01F83A Rightwards squared arrow
01F83B Downwards squared arrow
01F83C Leftwards compressed arrow
01F83D Upwards compressed arrow
01F83E Rightwards compressed arrow
01F83F Downwards compressed arrow
01F840 Leftwards heavy compressed arrow
01F841 Upwards heavy compressed arrow
01F842 Rightwards heavy compressed arrow
01F843 Downwards heavy compressed arrow
01F844 Leftwards heavy arrow
01F845 Upwards heavy arrow
01F846 Rightwards heavy arrow
01F847 Downwards heavy arrow
01F850 Leftwards sans-serif arrow
01F851 Upwards sans-serif arrow
01F852 Rightwards sans-serif arrow
01F853 Downwards sans-serif arrow
01F854 North west sans-serif arrow
01F855 North east sans-serif arrow
01F856 South east sans-serif arrow
01F857 South west sans-serif arrow
01F858 Left right sans-serif arrow
01F859 Up down sans-serif arrow
01F860 Wide-headed leftwards light barb arrow
01F861 Wide-headed upwards light barb arrow
01F862 Wide-headed rightwards light barb arrow
01F863 Wide-headed downwards light barb arrow
01F864 Wide-headed north west light barb arrow
01F865 Wide-headed north east light barb arrow
01F866 Wide-headed south east light barb arrow
01F867 Wide-headed south west light barb arrow
01F868 Wide-headed leftwards barb arrow
01F869 Wide-headed upwards barb arrow
01F86A Wide-headed rightwards barb arrow
01F86B Wide-headed downwards barb arrow
01F86C Wide-headed north west barb arrow
01F86D Wide-headed north east barb arrow
01F86E Wide-headed south east barb arrow
01F86F Wide-headed south west barb arrow
01F870 Wide-headed leftwards medium barb arrow
01F871 Wide-headed upwards medium barb arrow
01F872 Wide-headed rightwards medium barb arrow
01F873 Wide-headed downwards medium barb arrow
01F874 Wide-headed north west medium barb arrow
01F875 Wide-headed north east medium barb arrow
01F876 Wide-headed south east medium barb arrow
01F877 Wide-headed south west medium barb arrow
01F878 Wide-headed leftwards heavy barb arrow
01F879 Wide-headed upwards heavy barb arrow
01F87A Wide-headed rightwards heavy barb arrow
01F87B Wide-headed downwards heavy barb arrow
01F87C Wide-headed north west heavy barb arrow
01F87D Wide-headed north east heavy barb arrow
01F87E Wide-headed south east heavy barb arrow
01F87F Wide-headed south west heavy barb arrow
01F880 Wide-headed leftwards very heavy barb arrow
01F881 Wide-headed upwards very heavy barb arrow
01F882 Wide-headed rightwards very heavy barb arrow
01F883 Wide-headed downwards very heavy barb arrow
01F884 Wide-headed north west very heavy barb arrow
01F885 Wide-headed north east very heavy barb arrow
01F886 Wide-headed south east very heavy barb arrow
01F887 Wide-headed south west very heavy barb arrow
01F890 Leftwards triangle arrowhead
01F891 Upwards triangle arrowhead
01F892 Rightwards triangle arrowhead
01F893 Downwards triangle arrowhead
01F894 Leftwards white arrow within triangle arrowhead
01F895 Upwards white arrow within triangle arrowhead
01F896 Rightwards white arrow within triangle arrowhead
01F897 Downwards white arrow within triangle arrowhead
01F898 Leftwards arrow with notched tail
01F899 Upwards arrow with notched tail
01F89A Rightwards arrow with notched tail
01F89B Downwards arrow with notched tail
01F89C Heavy arrow shaft width one
01F89D Heavy arrow shaft width two thirds
01F89E Heavy arrow shaft width one half
01F89F Heavy arrow shaft width one third
01F8A0 Leftwards bottom-shaded white arrow
01F8A1 Rightwards bottom shaded white arrow
01F8A2 Leftwards top shaded white arrow
01F8A3 Rightwards top shaded white arrow
01F8A4 Leftwards left-shaded white arrow
01F8A5 Rightwards right-shaded white arrow
01F8A6 Leftwards right-shaded white arrow
01F8A7 Rightwards left-shaded white arrow
01F8A8 Leftwards back-tilted shadowed white arrow
01F8A9 Rightwards back-tilted shadowed white arrow
01F8AA Leftwards front-tilted shadowed white arrow
01F8AB Rightwards front-tilted shadowed white arrow
01F8AC White arrow shaft width one
01F8AD White arrow shaft width two thirds
01F8B0 Arrow pointing upwards then north west
01F8B1 Arrow pointing rightwards then curving south west
01F900 Circled cross formee with four dots
01F901 Circled cross formee with two dots
01F902 Circled cross formee
01F903 Left half circle with four dots
01F904 Left half circle with three dots
01F905 Left half circle with two dots
01F906 Left half circle with dot
01F907 Left half circle
01F908 Downward facing hook
01F909 Downward facing notched hook
01F90A Downward facing hook with dot
01F90B Downward facing notched hook with dot
01F90C Pinched fingers
01F90D White heart
01F90E Brown heart
01F90F Pinching hand
01F910 Zipper-mouth face
01F911 Money-mouth face
01F912 Face with thermometer
01F913 Nerd face
01F914 Thinking face
01F915 Face with head-bandage
01F916 Robot face
01F917 Hugging face
01F918 Sign of the horns
01F919 Call me hand
01F91A Raised back of hand
01F91B Left-facing fist
01F91C Right-facing fist
01F91D Handshake
01F91E Hand with index and middle fingers crossed
01F91F I love you hand sign
01F920 Face with cowboy hat
01F921 Clown face
01F922 Nauseated face
01F923 Rolling on the floor laughing
01F924 Drooling face
01F925 Lying face
01F926 Face palm
01F927 Sneezing face
01F928 Face with one eyebrow raised
01F929 Grinning face with star eyes
01F92A Grinning face with one large and one small eye
01F92B Face with finger covering closed lips
01F92C Serious face with symbols covering mouth
01F92D Smiling face with smiling eyes and hand covering mouth
01F92E Face with open mouth vomiting
01F92F Shocked face with exploding head
01F930 Pregnant woman
01F931 Breast-feeding
01F932 Palms up together
01F933 Selfie
01F934 Prince
01F935 Man in tuxedo
01F936 Mother christmas
01F937 Shrug
01F938 Person doing cartwheel
01F939 Juggling
01F93A Fencer
01F93B Modern pentathlon
01F93C Wrestlers
01F93D Water polo
01F93E Handball
01F93F Diving mask
01F940 Wilted flower
01F941 Drum with drumsticks
01F942 Clinking glasses
01F943 Tumbler glass
01F944 Spoon
01F945 Goal net
01F946 Rifle
01F947 First place medal
01F948 Second place medal
01F949 Third place medal
01F94A Boxing glove
01F94B Martial arts uniform
01F94C Curling stone
01F94D Lacrosse stick and ball
01F94E Softball
";

pub const NAMES_80: &'static str = "01F94F Flying disc
01F950 Croissant
01F951 Avocado
01F952 Cucumber
01F953 Bacon
01F954 Potato
01F955 Carrot
01F956 Baguette bread
01F957 Green salad
01F958 Shallow pan of food
01F959 Stuffed flatbread
01F95A Egg
01F95B Glass of milk
01F95C Peanuts
01F95D Kiwifruit
01F95E Pancakes
01F95F Dumpling
01F960 Fortune cookie
01F961 Takeout box
01F962 Chopsticks
01F963 Bowl with spoon
01F964 Cup with straw
01F965 Coconut
01F966 Broccoli
01F967 Pie
01F968 Pretzel
01F969 Cut of meat
01F96A Sandwich
01F96B Canned food
01F96C Leafy green
01F96D Mango
01F96E Moon cake
01F96F Bagel
01F970 Smiling face with smiling eyes and three hearts
01F971 Yawning face
01F972 Smiling face with tear
01F973 Face with party horn and party hat
01F974 Face with uneven eyes and wavy mouth
01F975 Overheated face
01F976 Freezing face
01F977 Ninja
01F978 Disguised face
01F979 Face holding back tears
01F97A Face with pleading eyes
01F97B Sari
01F97C Lab coat
01F97D Goggles
01F97E Hiking boot
01F97F Flat shoe
01F980 Crab
01F981 Lion face
01F982 Scorpion
01F983 Turkey
01F984 Unicorn face
01F985 Eagle
01F986 Duck
01F987 Bat
01F988 Shark
01F989 Owl
01F98A Fox face
01F98B Butterfly
01F98C Deer
01F98D Gorilla
01F98E Lizard
01F98F Rhinoceros
01F990 Shrimp
01F991 Squid
01F992 Giraffe face
01F993 Zebra face
01F994 Hedgehog
01F995 Sauropod
01F996 T-rex
01F997 Cricket
01F998 Kangaroo
01F999 Llama
01F99A Peacock
01F99B Hippopotamus
01F99C Parrot
01F99D Raccoon
01F99E Lobster
01F99F Mosquito
01F9A0 Microbe
01F9A1 Badger
01F9A2 Swan
01F9A3 Mammoth
01F9A4 Dodo
01F9A5 Sloth
01F9A6 Otter
01F9A7 Orangutan
01F9A8 Skunk
01F9A9 Flamingo
01F9AA Oyster
01F9AB Beaver
01F9AC Bison
01F9AD Seal
01F9AE Guide dog
01F9AF Probing cane
01F9B0 Emoji component red hair
01F9B1 Emoji component curly hair
01F9B2 Emoji component bald
01F9B3 Emoji component white hair
01F9B4 Bone
01F9B5 Leg
01F9B6 Foot
01F9B7 Tooth
01F9B8 Superhero
01F9B9 Supervillain
01F9BA Safety vest
01F9BB Ear with hearing aid
01F9BC Motorized wheelchair
01F9BD Manual wheelchair
01F9BE Mechanical arm
01F9BF Mechanical leg
01F9C0 Cheese wedge
01F9C1 Cupcake
01F9C2 Salt shaker
01F9C3 Beverage box
01F9C4 Garlic
01F9C5 Onion
01F9C6 Falafel
01F9C7 Waffle
01F9C8 Butter
01F9C9 Mate drink
01F9CA Ice cube
01F9CB Bubble tea
01F9CC Troll
01F9CD Standing person
01F9CE Kneeling person
01F9CF Deaf person
01F9D0 Face with monocle
01F9D1 Adult
01F9D2 Child
01F9D3 Older adult
01F9D4 Bearded person
01F9D5 Person with headscarf
01F9D6 Person in steamy room
01F9D7 Person climbing
01F9D8 Person in lotus position
01F9D9 Mage
01F9DA Fairy
01F9DB Vampire
01F9DC Merperson
01F9DD Elf
01F9DE Genie
01F9DF Zombie
01F9E0 Brain
01F9E1 Orange heart
01F9E2 Billed cap
01F9E3 Scarf
01F9E4 Gloves
01F9E5 Coat
01F9E6 Socks
01F9E7 Red gift envelope
01F9E8 Firecracker
01F9E9 Jigsaw puzzle piece
01F9EA Test tube
01F9EB Petri dish
01F9EC Dna double helix
01F9ED Compass
01F9EE Abacus
01F9EF Fire extinguisher
01F9F0 Toolbox
01F9F1 Brick
01F9F2 Magnet
01F9F3 Luggage
01F9F4 Lotion bottle
01F9F5 Spool of thread
01F9F6 Ball of yarn
01F9F7 Safety pin
01F9F8 Teddy bear
01F9F9 Broom
01F9FA Basket
01F9FB Roll of paper
01F9FC Bar of soap
01F9FD Sponge
01F9FE Receipt
01F9FF Nazar amulet
01FA00 Neutral chess king
01FA01 Neutral chess queen
01FA02 Neutral chess rook
01FA03 Neutral chess bishop
01FA04 Neutral chess knight
01FA05 Neutral chess pawn
01FA06 White chess knight rotated forty-five degrees
01FA07 Black chess knight rotated forty-five degrees
01FA08 Neutral chess knight rotated forty-five degrees
01FA09 White chess king rotated ninety degrees
01FA0A White chess queen rotated ninety degrees
01FA0B White chess rook rotated ninety degrees
01FA0C White chess bishop rotated ninety degrees
01FA0D White chess knight rotated ninety degrees
01FA0E White chess pawn rotated ninety degrees
01FA0F Black chess king rotated ninety degrees
01FA10 Black chess queen rotated ninety degrees
01FA11 Black chess rook rotated ninety degrees
01FA12 Black chess bishop rotated ninety degrees
01FA13 Black chess knight rotated ninety degrees
01FA14 Black chess pawn rotated ninety degrees
01FA15 Neutral chess king rotated ninety degrees
01FA16 Neutral chess queen rotated ninety degrees
01FA17 Neutral chess rook rotated ninety degrees
01FA18 Neutral chess bishop rotated ninety degrees
01FA19 Neutral chess knight rotated ninety degrees
01FA1A Neutral chess pawn rotated ninety degrees
01FA1B White chess knight rotated one hundred thirty-five degrees
01FA1C Black chess knight rotated one hundred thirty-five degrees
01FA1D Neutral chess knight rotated one hundred thirty-five degrees
01FA1E White chess turned king
01FA1F White chess turned queen
01FA20 White chess turned rook
01FA21 White chess turned bishop
01FA22 White chess turned knight
01FA23 White chess turned pawn
01FA24 Black chess turned king
01FA25 Black chess turned queen
01FA26 Black chess turned rook
01FA27 Black chess turned bishop
01FA28 Black chess turned knight
01FA29 Black chess turned pawn
01FA2A Neutral chess turned king
01FA2B Neutral chess turned queen
01FA2C Neutral chess turned rook
01FA2D Neutral chess turned bishop
01FA2E Neutral chess turned knight
01FA2F Neutral chess turned pawn
01FA30 White chess knight rotated two hundred twenty-five degrees
01FA31 Black chess knight rotated two hundred twenty-five degrees
01FA32 Neutral chess knight rotated two hundred twenty-five degrees
01FA33 White chess king rotated two hundred seventy degrees
01FA34 White chess queen rotated two hundred seventy degrees
01FA35 White chess rook rotated two hundred seventy degrees
01FA36 White chess bishop rotated two hundred seventy degrees
01FA37 White chess knight rotated two hundred seventy degrees
01FA38 White chess pawn rotated two hundred seventy degrees
01FA39 Black chess king rotated two hundred seventy degrees
01FA3A Black chess queen rotated two hundred seventy degrees
01FA3B Black chess rook rotated two hundred seventy degrees
01FA3C Black chess bishop rotated two hundred seventy degrees
01FA3D Black chess knight rotated two hundred seventy degrees
01FA3E Black chess pawn rotated two hundred seventy degrees
01FA3F Neutral chess king rotated two hundred seventy degrees
01FA40 Neutral chess queen rotated two hundred seventy degrees
01FA41 Neutral chess rook rotated two hundred seventy degrees
01FA42 Neutral chess bishop rotated two hundred seventy degrees
01FA43 Neutral chess knight rotated two hundred seventy degrees
01FA44 Neutral chess pawn rotated two hundred seventy degrees
01FA45 White chess knight rotated three hundred fifteen degrees
01FA46 Black chess knight rotated three hundred fifteen degrees
01FA47 Neutral chess knight rotated three hundred fifteen degrees
01FA48 White chess equihopper
01FA49 Black chess equihopper
01FA4A Neutral chess equihopper
01FA4B White chess equihopper rotated ninety degrees
01FA4C Black chess equihopper rotated ninety degrees
01FA4D Neutral chess equihopper rotated ninety degrees
01FA4E White chess knight-queen
01FA4F White chess knight-rook
01FA50 White chess knight-bishop
01FA51 Black chess knight-queen
01FA52 Black chess knight-rook
01FA53 Black chess knight-bishop
01FA60 Xiangqi red general
01FA61 Xiangqi red mandarin
01FA62 Xiangqi red elephant
01FA63 Xiangqi red horse
01FA64 Xiangqi red chariot
01FA65 Xiangqi red cannon
01FA66 Xiangqi red soldier
01FA67 Xiangqi black general
01FA68 Xiangqi black mandarin
01FA69 Xiangqi black elephant
01FA6A Xiangqi black horse
01FA6B Xiangqi black chariot
01FA6C Xiangqi black cannon
01FA6D Xiangqi black soldier
01FA70 Ballet shoes
01FA71 One-piece swimsuit
01FA72 Briefs
01FA73 Shorts
01FA74 Thong sandal
01FA78 Drop of blood
01FA79 Adhesive bandage
01FA7A Stethoscope
01FA7B X-ray
01FA7C Crutch
01FA80 Yo-yo
01FA81 Kite
01FA82 Parachute
01FA83 Boomerang
01FA84 Magic wand
01FA85 Pinata
01FA86 Nesting dolls
01FA90 Ringed planet
01FA91 Chair
01FA92 Razor
01FA93 Axe
01FA94 Diya lamp
01FA95 Banjo
01FA96 Military helmet
01FA97 Accordion
01FA98 Long drum
01FA99 Coin
01FA9A Carpentry saw
01FA9B Screwdriver
01FA9C Ladder
01FA9D Hook
01FA9E Mirror
01FA9F Window
01FAA0 Plunger
01FAA1 Sewing needle
01FAA2 Knot
01FAA3 Bucket
01FAA4 Mouse trap
01FAA5 Toothbrush
01FAA6 Headstone
01FAA7 Placard
01FAA8 Rock
01FAA9 Mirror ball
01FAAA Identification card
01FAAB Low battery
01FAAC Hamsa
01FAB0 Fly
01FAB1 Worm
01FAB2 Beetle
01FAB3 Cockroach
01FAB4 Potted plant
01FAB5 Wood
01FAB6 Feather
01FAB7 Lotus
01FAB8 Coral
01FAB9 Empty nest
01FABA Nest with eggs
01FAC0 Anatomical heart
01FAC1 Lungs
01FAC2 People hugging
01FAC3 Pregnant man
01FAC4 Pregnant person
01FAC5 Person with crown
01FAD0 Blueberries
01FAD1 Bell pepper
01FAD2 Olive
01FAD3 Flatbread
01FAD4 Tamale
01FAD5 Fondue
01FAD6 Teapot
01FAD7 Pouring liquid
01FAD8 Beans
01FAD9 Jar
01FAE0 Melting face
01FAE1 Saluting face
01FAE2 Face with open eyes and hand over mouth
01FAE3 Face with peeking eye
01FAE4 Face with diagonal mouth
01FAE5 Dotted line face
01FAE6 Biting lip
01FAE7 Bubbles
01FAF0 Hand with index finger and thumb crossed
01FAF1 Rightwards hand
01FAF2 Leftwards hand
01FAF3 Palm down hand
01FAF4 Palm up hand
01FAF5 Index pointing at the viewer
01FAF6 Heart hands
01FB00 Block sextant-1
01FB01 Block sextant-2
01FB02 Block sextant-12
01FB03 Block sextant-3
01FB04 Block sextant-13
01FB05 Block sextant-23
01FB06 Block sextant-123
01FB07 Block sextant-4
01FB08 Block sextant-14
01FB09 Block sextant-24
01FB0A Block sextant-124
01FB0B Block sextant-34
01FB0C Block sextant-134
01FB0D Block sextant-234
01FB0E Block sextant-1234
01FB0F Block sextant-5
01FB10 Block sextant-15
01FB11 Block sextant-25
01FB12 Block sextant-125
01FB13 Block sextant-35
01FB14 Block sextant-235
01FB15 Block sextant-1235
01FB16 Block sextant-45
01FB17 Block sextant-145
01FB18 Block sextant-245
01FB19 Block sextant-1245
01FB1A Block sextant-345
01FB1B Block sextant-1345
01FB1C Block sextant-2345
01FB1D Block sextant-12345
01FB1E Block sextant-6
01FB1F Block sextant-16
01FB20 Block sextant-26
01FB21 Block sextant-126
01FB22 Block sextant-36
01FB23 Block sextant-136
01FB24 Block sextant-236
01FB25 Block sextant-1236
01FB26 Block sextant-46
01FB27 Block sextant-146
01FB28 Block sextant-1246
01FB29 Block sextant-346
01FB2A Block sextant-1346
01FB2B Block sextant-2346
01FB2C Block sextant-12346
01FB2D Block sextant-56
01FB2E Block sextant-156
01FB2F Block sextant-256
01FB30 Block sextant-1256
01FB31 Block sextant-356
01FB32 Block sextant-1356
01FB33 Block sextant-2356
01FB34 Block sextant-12356
01FB35 Block sextant-456
01FB36 Block sextant-1456
01FB37 Block sextant-2456
01FB38 Block sextant-12456
01FB39 Block sextant-3456
01FB3A Block sextant-13456
01FB3B Block sextant-23456
01FB3C Lower left block diagonal lower middle left to lower centre
01FB3D Lower left block diagonal lower middle left to lower right
01FB3E Lower left block diagonal upper middle left to lower centre
01FB3F Lower left block diagonal upper middle left to lower right
01FB40 Lower left block diagonal upper left to lower centre
01FB41 Lower right block diagonal upper middle left to upper centre
01FB42 Lower right block diagonal upper middle left to upper right
01FB43 Lower right block diagonal lower middle left to upper centre
01FB44 Lower right block diagonal lower middle left to upper right
01FB45 Lower right block diagonal lower left to upper centre
01FB46 Lower right block diagonal lower middle left to upper middle right
01FB47 Lower right block diagonal lower centre to lower middle right
01FB48 Lower right block diagonal lower left to lower middle right
01FB49 Lower right block diagonal lower centre to upper middle right
01FB4A Lower right block diagonal lower left to upper middle right
01FB4B Lower right block diagonal lower centre to upper right
01FB4C Lower left block diagonal upper centre to upper middle right
01FB4D Lower left block diagonal upper left to upper middle right
01FB4E Lower left block diagonal upper centre to lower middle right
01FB4F Lower left block diagonal upper left to lower middle right
01FB50 Lower left block diagonal upper centre to lower right
01FB51 Lower left block diagonal upper middle left to lower middle right
01FB52 Upper right block diagonal lower middle left to lower centre
01FB53 Upper right block diagonal lower middle left to lower right
01FB54 Upper right block diagonal upper middle left to lower centre
01FB55 Upper right block diagonal upper middle left to lower right
01FB56 Upper right block diagonal upper left to lower centre
01FB57 Upper left block diagonal upper middle left to upper centre
01FB58 Upper left block diagonal upper middle left to upper right
01FB59 Upper left block diagonal lower middle left to upper centre
01FB5A Upper left block diagonal lower middle left to upper right
01FB5B Upper left block diagonal lower left to upper centre
01FB5C Upper left block diagonal lower middle left to upper middle right
01FB5D Upper left block diagonal lower centre to lower middle right
01FB5E Upper left block diagonal lower left to lower middle right
01FB5F Upper left block diagonal lower centre to upper middle right
01FB60 Upper left block diagonal lower left to upper middle right
01FB61 Upper left block diagonal lower centre to upper right
01FB62 Upper right block diagonal upper centre to upper middle right
01FB63 Upper right block diagonal upper left to upper middle right
01FB64 Upper right block diagonal upper centre to lower middle right
01FB65 Upper right block diagonal upper left to lower middle right
01FB66 Upper right block diagonal upper centre to lower right
01FB67 Upper right block diagonal upper middle left to lower middle right
01FB68 Upper and right and lower triangular three quarters block
01FB69 Left and lower and right triangular three quarters block
01FB6A Upper and left and lower triangular three quarters block
01FB6B Left and upper and right triangular three quarters block
01FB6C Left triangular one quarter block
01FB6D Upper triangular one quarter block
01FB6E Right triangular one quarter block
01FB6F Lower triangular one quarter block
";

pub const NAMES_81: &'static str = "01FB70 Vertical one eighth block-2
01FB71 Vertical one eighth block-3
01FB72 Vertical one eighth block-4
01FB73 Vertical one eighth block-5
01FB74 Vertical one eighth block-6
01FB75 Vertical one eighth block-7
01FB76 Horizontal one eighth block-2
01FB77 Horizontal one eighth block-3
01FB78 Horizontal one eighth block-4
01FB79 Horizontal one eighth block-5
01FB7A Horizontal one eighth block-6
01FB7B Horizontal one eighth block-7
01FB7C Left and lower one eighth block
01FB7D Left and upper one eighth block
01FB7E Right and upper one eighth block
01FB7F Right and lower one eighth block
01FB80 Upper and lower one eighth block
01FB81 Horizontal one eighth block-1358
01FB82 Upper one quarter block
01FB83 Upper three eighths block
01FB84 Upper five eighths block
01FB85 Upper three quarters block
01FB86 Upper seven eighths block
01FB87 Right one quarter block
01FB88 Right three eighths block
01FB89 Right five eighths block
01FB8A Right three quarters block
01FB8B Right seven eighths block
01FB8C Left half medium shade
01FB8D Right half medium shade
01FB8E Upper half medium shade
01FB8F Lower half medium shade
01FB90 Inverse medium shade
01FB91 Upper half block and lower half inverse medium shade
01FB92 Upper half inverse medium shade and lower half block
01FB94 Left half inverse medium shade and right half block
01FB95 Checker board fill
01FB96 Inverse checker board fill
01FB97 Heavy horizontal fill
01FB98 Upper left to lower right fill
01FB99 Upper right to lower left fill
01FB9A Upper and lower triangular half block
01FB9B Left and right triangular half block
01FB9C Upper left triangular medium shade
01FB9D Upper right triangular medium shade
01FB9E Lower right triangular medium shade
01FB9F Lower left triangular medium shade
01FBA0 Box drawings light diagonal upper centre to middle left
01FBA1 Box drawings light diagonal upper centre to middle right
01FBA2 Box drawings light diagonal middle left to lower centre
01FBA3 Box drawings light diagonal middle right to lower centre
01FBA4 Box drawings light diagonal upper centre to middle left to lower centre
01FBA5 Box drawings light diagonal upper centre to middle right to lower centre
01FBA6 Box drawings light diagonal middle left to lower centre to middle right
01FBA7 Box drawings light diagonal middle left to upper centre to middle right
01FBA8 Box drawings light diagonal upper centre to middle left and middle right to lower centre
01FBA9 Box drawings light diagonal upper centre to middle right and middle left to lower centre
01FBAA Box drawings light diagonal upper centre to middle right to lower centre to middle left
01FBAB Box drawings light diagonal upper centre to middle left to lower centre to middle right
01FBAC Box drawings light diagonal middle left to upper centre to middle right to lower centre
01FBAD Box drawings light diagonal middle right to upper centre to middle left to lower centre
01FBAE Box drawings light diagonal diamond
01FBAF Box drawings light horizontal with vertical stroke
01FBB0 Arrowhead-shaped pointer
01FBB1 Inverse check mark
01FBB2 Left half running man
01FBB3 Right half running man
01FBB4 Inverse downwards arrow with tip leftwards
01FBB5 Leftwards arrow and upper and lower one eighth block
01FBB6 Rightwards arrow and upper and lower one eighth block
01FBB7 Downwards arrow and right one eighth block
01FBB8 Upwards arrow and right one eighth block
01FBB9 Left half folder
01FBBA Right half folder
01FBBB Voided greek cross
01FBBC Right open squared dot
01FBBD Negative diagonal cross
01FBBE Negative diagonal middle right to lower centre
01FBBF Negative diagonal diamond
01FBC0 White heavy saltire with rounded corners
01FBC1 Left third white right pointing index
01FBC2 Middle third white right pointing index
01FBC3 Right third white right pointing index
01FBC4 Negative squared question mark
01FBC5 Stick figure
01FBC6 Stick figure with arms raised
01FBC7 Stick figure leaning left
01FBC8 Stick figure leaning right
01FBC9 Stick figure with dress
01FBCA White up-pointing chevron
01FBF0 Segmented digit zero
01FBF1 Segmented digit one
01FBF2 Segmented digit two
01FBF3 Segmented digit three
01FBF4 Segmented digit four
01FBF5 Segmented digit five
01FBF6 Segmented digit six
01FBF7 Segmented digit seven
01FBF8 Segmented digit eight
01FBF9 Segmented digit nine
02F800 Cjk compatibility ideograph-2f800
02F801 Cjk compatibility ideograph-2f801
02F802 Cjk compatibility ideograph-2f802
02F803 Cjk compatibility ideograph-2f803
02F804 Cjk compatibility ideograph-2f804
02F805 Cjk compatibility ideograph-2f805
02F806 Cjk compatibility ideograph-2f806
02F807 Cjk compatibility ideograph-2f807
02F808 Cjk compatibility ideograph-2f808
02F809 Cjk compatibility ideograph-2f809
02F80A Cjk compatibility ideograph-2f80a
02F80B Cjk compatibility ideograph-2f80b
02F80C Cjk compatibility ideograph-2f80c
02F80D Cjk compatibility ideograph-2f80d
02F80E Cjk compatibility ideograph-2f80e
02F80F Cjk compatibility ideograph-2f80f
02F810 Cjk compatibility ideograph-2f810
02F811 Cjk compatibility ideograph-2f811
02F812 Cjk compatibility ideograph-2f812
02F813 Cjk compatibility ideograph-2f813
02F814 Cjk compatibility ideograph-2f814
02F815 Cjk compatibility ideograph-2f815
02F816 Cjk compatibility ideograph-2f816
02F817 Cjk compatibility ideograph-2f817
02F818 Cjk compatibility ideograph-2f818
02F819 Cjk compatibility ideograph-2f819
02F81A Cjk compatibility ideograph-2f81a
02F81B Cjk compatibility ideograph-2f81b
02F81C Cjk compatibility ideograph-2f81c
02F81D Cjk compatibility ideograph-2f81d
02F81E Cjk compatibility ideograph-2f81e
02F81F Cjk compatibility ideograph-2f81f
02F820 Cjk compatibility ideograph-2f820
02F821 Cjk compatibility ideograph-2f821
02F822 Cjk compatibility ideograph-2f822
02F823 Cjk compatibility ideograph-2f823
02F824 Cjk compatibility ideograph-2f824
02F825 Cjk compatibility ideograph-2f825
02F826 Cjk compatibility ideograph-2f826
02F827 Cjk compatibility ideograph-2f827
02F828 Cjk compatibility ideograph-2f828
02F829 Cjk compatibility ideograph-2f829
02F82A Cjk compatibility ideograph-2f82a
02F82B Cjk compatibility ideograph-2f82b
02F82C Cjk compatibility ideograph-2f82c
02F82D Cjk compatibility ideograph-2f82d
02F82E Cjk compatibility ideograph-2f82e
02F82F Cjk compatibility ideograph-2f82f
02F830 Cjk compatibility ideograph-2f830
02F831 Cjk compatibility ideograph-2f831
02F832 Cjk compatibility ideograph-2f832
02F833 Cjk compatibility ideograph-2f833
02F834 Cjk compatibility ideograph-2f834
02F835 Cjk compatibility ideograph-2f835
02F836 Cjk compatibility ideograph-2f836
02F837 Cjk compatibility ideograph-2f837
02F838 Cjk compatibility ideograph-2f838
02F839 Cjk compatibility ideograph-2f839
02F83A Cjk compatibility ideograph-2f83a
02F83B Cjk compatibility ideograph-2f83b
02F83C Cjk compatibility ideograph-2f83c
02F83D Cjk compatibility ideograph-2f83d
02F83E Cjk compatibility ideograph-2f83e
02F83F Cjk compatibility ideograph-2f83f
02F840 Cjk compatibility ideograph-2f840
02F841 Cjk compatibility ideograph-2f841
02F842 Cjk compatibility ideograph-2f842
02F843 Cjk compatibility ideograph-2f843
02F844 Cjk compatibility ideograph-2f844
02F845 Cjk compatibility ideograph-2f845
02F846 Cjk compatibility ideograph-2f846
02F847 Cjk compatibility ideograph-2f847
02F848 Cjk compatibility ideograph-2f848
02F849 Cjk compatibility ideograph-2f849
02F84A Cjk compatibility ideograph-2f84a
02F84B Cjk compatibility ideograph-2f84b
02F84C Cjk compatibility ideograph-2f84c
02F84D Cjk compatibility ideograph-2f84d
02F84E Cjk compatibility ideograph-2f84e
02F84F Cjk compatibility ideograph-2f84f
02F850 Cjk compatibility ideograph-2f850
02F851 Cjk compatibility ideograph-2f851
02F852 Cjk compatibility ideograph-2f852
02F853 Cjk compatibility ideograph-2f853
02F854 Cjk compatibility ideograph-2f854
02F855 Cjk compatibility ideograph-2f855
02F856 Cjk compatibility ideograph-2f856
02F857 Cjk compatibility ideograph-2f857
02F858 Cjk compatibility ideograph-2f858
02F859 Cjk compatibility ideograph-2f859
02F85A Cjk compatibility ideograph-2f85a
02F85B Cjk compatibility ideograph-2f85b
02F85C Cjk compatibility ideograph-2f85c
02F85D Cjk compatibility ideograph-2f85d
02F85E Cjk compatibility ideograph-2f85e
02F85F Cjk compatibility ideograph-2f85f
02F860 Cjk compatibility ideograph-2f860
02F861 Cjk compatibility ideograph-2f861
02F862 Cjk compatibility ideograph-2f862
02F863 Cjk compatibility ideograph-2f863
02F864 Cjk compatibility ideograph-2f864
02F865 Cjk compatibility ideograph-2f865
02F866 Cjk compatibility ideograph-2f866
02F867 Cjk compatibility ideograph-2f867
02F868 Cjk compatibility ideograph-2f868
02F869 Cjk compatibility ideograph-2f869
02F86A Cjk compatibility ideograph-2f86a
02F86B Cjk compatibility ideograph-2f86b
02F86C Cjk compatibility ideograph-2f86c
02F86D Cjk compatibility ideograph-2f86d
02F86E Cjk compatibility ideograph-2f86e
02F86F Cjk compatibility ideograph-2f86f
02F870 Cjk compatibility ideograph-2f870
02F871 Cjk compatibility ideograph-2f871
02F872 Cjk compatibility ideograph-2f872
02F873 Cjk compatibility ideograph-2f873
02F874 Cjk compatibility ideograph-2f874
02F875 Cjk compatibility ideograph-2f875
02F876 Cjk compatibility ideograph-2f876
02F877 Cjk compatibility ideograph-2f877
02F878 Cjk compatibility ideograph-2f878
02F879 Cjk compatibility ideograph-2f879
02F87A Cjk compatibility ideograph-2f87a
02F87B Cjk compatibility ideograph-2f87b
02F87C Cjk compatibility ideograph-2f87c
02F87D Cjk compatibility ideograph-2f87d
02F87E Cjk compatibility ideograph-2f87e
02F87F Cjk compatibility ideograph-2f87f
02F880 Cjk compatibility ideograph-2f880
02F881 Cjk compatibility ideograph-2f881
02F882 Cjk compatibility ideograph-2f882
02F883 Cjk compatibility ideograph-2f883
02F884 Cjk compatibility ideograph-2f884
02F885 Cjk compatibility ideograph-2f885
02F886 Cjk compatibility ideograph-2f886
02F887 Cjk compatibility ideograph-2f887
02F888 Cjk compatibility ideograph-2f888
02F889 Cjk compatibility ideograph-2f889
02F88A Cjk compatibility ideograph-2f88a
02F88B Cjk compatibility ideograph-2f88b
02F88C Cjk compatibility ideograph-2f88c
02F88D Cjk compatibility ideograph-2f88d
02F88E Cjk compatibility ideograph-2f88e
02F88F Cjk compatibility ideograph-2f88f
02F890 Cjk compatibility ideograph-2f890
02F891 Cjk compatibility ideograph-2f891
02F892 Cjk compatibility ideograph-2f892
02F893 Cjk compatibility ideograph-2f893
02F894 Cjk compatibility ideograph-2f894
02F895 Cjk compatibility ideograph-2f895
02F896 Cjk compatibility ideograph-2f896
02F897 Cjk compatibility ideograph-2f897
02F898 Cjk compatibility ideograph-2f898
02F899 Cjk compatibility ideograph-2f899
02F89A Cjk compatibility ideograph-2f89a
02F89B Cjk compatibility ideograph-2f89b
02F89C Cjk compatibility ideograph-2f89c
02F89D Cjk compatibility ideograph-2f89d
02F89E Cjk compatibility ideograph-2f89e
02F89F Cjk compatibility ideograph-2f89f
02F8A0 Cjk compatibility ideograph-2f8a0
02F8A1 Cjk compatibility ideograph-2f8a1
02F8A2 Cjk compatibility ideograph-2f8a2
02F8A3 Cjk compatibility ideograph-2f8a3
02F8A4 Cjk compatibility ideograph-2f8a4
02F8A5 Cjk compatibility ideograph-2f8a5
02F8A6 Cjk compatibility ideograph-2f8a6
02F8A7 Cjk compatibility ideograph-2f8a7
02F8A8 Cjk compatibility ideograph-2f8a8
02F8A9 Cjk compatibility ideograph-2f8a9
02F8AA Cjk compatibility ideograph-2f8aa
02F8AB Cjk compatibility ideograph-2f8ab
02F8AC Cjk compatibility ideograph-2f8ac
02F8AD Cjk compatibility ideograph-2f8ad
02F8AE Cjk compatibility ideograph-2f8ae
02F8AF Cjk compatibility ideograph-2f8af
02F8B0 Cjk compatibility ideograph-2f8b0
02F8B1 Cjk compatibility ideograph-2f8b1
02F8B2 Cjk compatibility ideograph-2f8b2
02F8B3 Cjk compatibility ideograph-2f8b3
02F8B4 Cjk compatibility ideograph-2f8b4
02F8B5 Cjk compatibility ideograph-2f8b5
02F8B6 Cjk compatibility ideograph-2f8b6
02F8B7 Cjk compatibility ideograph-2f8b7
02F8B8 Cjk compatibility ideograph-2f8b8
02F8B9 Cjk compatibility ideograph-2f8b9
02F8BA Cjk compatibility ideograph-2f8ba
02F8BB Cjk compatibility ideograph-2f8bb
02F8BC Cjk compatibility ideograph-2f8bc
02F8BD Cjk compatibility ideograph-2f8bd
02F8BE Cjk compatibility ideograph-2f8be
02F8BF Cjk compatibility ideograph-2f8bf
02F8C0 Cjk compatibility ideograph-2f8c0
02F8C1 Cjk compatibility ideograph-2f8c1
02F8C2 Cjk compatibility ideograph-2f8c2
02F8C3 Cjk compatibility ideograph-2f8c3
02F8C4 Cjk compatibility ideograph-2f8c4
02F8C5 Cjk compatibility ideograph-2f8c5
02F8C6 Cjk compatibility ideograph-2f8c6
02F8C7 Cjk compatibility ideograph-2f8c7
02F8C8 Cjk compatibility ideograph-2f8c8
02F8C9 Cjk compatibility ideograph-2f8c9
02F8CA Cjk compatibility ideograph-2f8ca
02F8CB Cjk compatibility ideograph-2f8cb
02F8CC Cjk compatibility ideograph-2f8cc
02F8CD Cjk compatibility ideograph-2f8cd
02F8CE Cjk compatibility ideograph-2f8ce
02F8CF Cjk compatibility ideograph-2f8cf
02F8D0 Cjk compatibility ideograph-2f8d0
02F8D1 Cjk compatibility ideograph-2f8d1
02F8D2 Cjk compatibility ideograph-2f8d2
02F8D3 Cjk compatibility ideograph-2f8d3
02F8D4 Cjk compatibility ideograph-2f8d4
02F8D5 Cjk compatibility ideograph-2f8d5
02F8D6 Cjk compatibility ideograph-2f8d6
02F8D7 Cjk compatibility ideograph-2f8d7
02F8D8 Cjk compatibility ideograph-2f8d8
02F8D9 Cjk compatibility ideograph-2f8d9
02F8DA Cjk compatibility ideograph-2f8da
02F8DB Cjk compatibility ideograph-2f8db
02F8DC Cjk compatibility ideograph-2f8dc
02F8DD Cjk compatibility ideograph-2f8dd
02F8DE Cjk compatibility ideograph-2f8de
02F8DF Cjk compatibility ideograph-2f8df
02F8E0 Cjk compatibility ideograph-2f8e0
02F8E1 Cjk compatibility ideograph-2f8e1
02F8E2 Cjk compatibility ideograph-2f8e2
02F8E3 Cjk compatibility ideograph-2f8e3
02F8E4 Cjk compatibility ideograph-2f8e4
02F8E5 Cjk compatibility ideograph-2f8e5
02F8E6 Cjk compatibility ideograph-2f8e6
02F8E7 Cjk compatibility ideograph-2f8e7
02F8E8 Cjk compatibility ideograph-2f8e8
02F8E9 Cjk compatibility ideograph-2f8e9
02F8EA Cjk compatibility ideograph-2f8ea
02F8EB Cjk compatibility ideograph-2f8eb
";

pub const NAMES_82: &'static str = "02F8EC Cjk compatibility ideograph-2f8ec
02F8ED Cjk compatibility ideograph-2f8ed
02F8EE Cjk compatibility ideograph-2f8ee
02F8EF Cjk compatibility ideograph-2f8ef
02F8F0 Cjk compatibility ideograph-2f8f0
02F8F1 Cjk compatibility ideograph-2f8f1
02F8F2 Cjk compatibility ideograph-2f8f2
02F8F3 Cjk compatibility ideograph-2f8f3
02F8F4 Cjk compatibility ideograph-2f8f4
02F8F5 Cjk compatibility ideograph-2f8f5
02F8F6 Cjk compatibility ideograph-2f8f6
02F8F7 Cjk compatibility ideograph-2f8f7
02F8F8 Cjk compatibility ideograph-2f8f8
02F8F9 Cjk compatibility ideograph-2f8f9
02F8FA Cjk compatibility ideograph-2f8fa
02F8FB Cjk compatibility ideograph-2f8fb
02F8FC Cjk compatibility ideograph-2f8fc
02F8FD Cjk compatibility ideograph-2f8fd
02F8FE Cjk compatibility ideograph-2f8fe
02F8FF Cjk compatibility ideograph-2f8ff
02F900 Cjk compatibility ideograph-2f900
02F901 Cjk compatibility ideograph-2f901
02F902 Cjk compatibility ideograph-2f902
02F903 Cjk compatibility ideograph-2f903
02F904 Cjk compatibility ideograph-2f904
02F905 Cjk compatibility ideograph-2f905
02F906 Cjk compatibility ideograph-2f906
02F907 Cjk compatibility ideograph-2f907
02F908 Cjk compatibility ideograph-2f908
02F909 Cjk compatibility ideograph-2f909
02F90A Cjk compatibility ideograph-2f90a
02F90B Cjk compatibility ideograph-2f90b
02F90C Cjk compatibility ideograph-2f90c
02F90D Cjk compatibility ideograph-2f90d
02F90E Cjk compatibility ideograph-2f90e
02F90F Cjk compatibility ideograph-2f90f
02F910 Cjk compatibility ideograph-2f910
02F911 Cjk compatibility ideograph-2f911
02F912 Cjk compatibility ideograph-2f912
02F913 Cjk compatibility ideograph-2f913
02F914 Cjk compatibility ideograph-2f914
02F915 Cjk compatibility ideograph-2f915
02F916 Cjk compatibility ideograph-2f916
02F917 Cjk compatibility ideograph-2f917
02F918 Cjk compatibility ideograph-2f918
02F919 Cjk compatibility ideograph-2f919
02F91A Cjk compatibility ideograph-2f91a
02F91B Cjk compatibility ideograph-2f91b
02F91C Cjk compatibility ideograph-2f91c
02F91D Cjk compatibility ideograph-2f91d
02F91E Cjk compatibility ideograph-2f91e
02F91F Cjk compatibility ideograph-2f91f
02F920 Cjk compatibility ideograph-2f920
02F921 Cjk compatibility ideograph-2f921
02F922 Cjk compatibility ideograph-2f922
02F923 Cjk compatibility ideograph-2f923
02F924 Cjk compatibility ideograph-2f924
02F925 Cjk compatibility ideograph-2f925
02F926 Cjk compatibility ideograph-2f926
02F927 Cjk compatibility ideograph-2f927
02F928 Cjk compatibility ideograph-2f928
02F929 Cjk compatibility ideograph-2f929
02F92A Cjk compatibility ideograph-2f92a
02F92B Cjk compatibility ideograph-2f92b
02F92C Cjk compatibility ideograph-2f92c
02F92D Cjk compatibility ideograph-2f92d
02F92E Cjk compatibility ideograph-2f92e
02F92F Cjk compatibility ideograph-2f92f
02F930 Cjk compatibility ideograph-2f930
02F931 Cjk compatibility ideograph-2f931
02F932 Cjk compatibility ideograph-2f932
02F933 Cjk compatibility ideograph-2f933
02F934 Cjk compatibility ideograph-2f934
02F935 Cjk compatibility ideograph-2f935
02F936 Cjk compatibility ideograph-2f936
02F937 Cjk compatibility ideograph-2f937
02F938 Cjk compatibility ideograph-2f938
02F939 Cjk compatibility ideograph-2f939
02F93A Cjk compatibility ideograph-2f93a
02F93B Cjk compatibility ideograph-2f93b
02F93C Cjk compatibility ideograph-2f93c
02F93D Cjk compatibility ideograph-2f93d
02F93E Cjk compatibility ideograph-2f93e
02F93F Cjk compatibility ideograph-2f93f
02F940 Cjk compatibility ideograph-2f940
02F941 Cjk compatibility ideograph-2f941
02F942 Cjk compatibility ideograph-2f942
02F943 Cjk compatibility ideograph-2f943
02F944 Cjk compatibility ideograph-2f944
02F945 Cjk compatibility ideograph-2f945
02F946 Cjk compatibility ideograph-2f946
02F947 Cjk compatibility ideograph-2f947
02F948 Cjk compatibility ideograph-2f948
02F949 Cjk compatibility ideograph-2f949
02F94A Cjk compatibility ideograph-2f94a
02F94B Cjk compatibility ideograph-2f94b
02F94C Cjk compatibility ideograph-2f94c
02F94D Cjk compatibility ideograph-2f94d
02F94E Cjk compatibility ideograph-2f94e
02F94F Cjk compatibility ideograph-2f94f
02F950 Cjk compatibility ideograph-2f950
02F951 Cjk compatibility ideograph-2f951
02F952 Cjk compatibility ideograph-2f952
02F953 Cjk compatibility ideograph-2f953
02F954 Cjk compatibility ideograph-2f954
02F955 Cjk compatibility ideograph-2f955
02F956 Cjk compatibility ideograph-2f956
02F957 Cjk compatibility ideograph-2f957
02F958 Cjk compatibility ideograph-2f958
02F959 Cjk compatibility ideograph-2f959
02F95A Cjk compatibility ideograph-2f95a
02F95B Cjk compatibility ideograph-2f95b
02F95C Cjk compatibility ideograph-2f95c
02F95D Cjk compatibility ideograph-2f95d
02F95E Cjk compatibility ideograph-2f95e
02F95F Cjk compatibility ideograph-2f95f
02F960 Cjk compatibility ideograph-2f960
02F961 Cjk compatibility ideograph-2f961
02F962 Cjk compatibility ideograph-2f962
02F963 Cjk compatibility ideograph-2f963
02F964 Cjk compatibility ideograph-2f964
02F965 Cjk compatibility ideograph-2f965
02F966 Cjk compatibility ideograph-2f966
02F967 Cjk compatibility ideograph-2f967
02F968 Cjk compatibility ideograph-2f968
02F969 Cjk compatibility ideograph-2f969
02F96A Cjk compatibility ideograph-2f96a
02F96B Cjk compatibility ideograph-2f96b
02F96C Cjk compatibility ideograph-2f96c
02F96D Cjk compatibility ideograph-2f96d
02F96E Cjk compatibility ideograph-2f96e
02F96F Cjk compatibility ideograph-2f96f
02F970 Cjk compatibility ideograph-2f970
02F971 Cjk compatibility ideograph-2f971
02F972 Cjk compatibility ideograph-2f972
02F973 Cjk compatibility ideograph-2f973
02F974 Cjk compatibility ideograph-2f974
02F975 Cjk compatibility ideograph-2f975
02F976 Cjk compatibility ideograph-2f976
02F977 Cjk compatibility ideograph-2f977
02F978 Cjk compatibility ideograph-2f978
02F979 Cjk compatibility ideograph-2f979
02F97A Cjk compatibility ideograph-2f97a
02F97B Cjk compatibility ideograph-2f97b
02F97C Cjk compatibility ideograph-2f97c
02F97D Cjk compatibility ideograph-2f97d
02F97E Cjk compatibility ideograph-2f97e
02F97F Cjk compatibility ideograph-2f97f
02F980 Cjk compatibility ideograph-2f980
02F981 Cjk compatibility ideograph-2f981
02F982 Cjk compatibility ideograph-2f982
02F983 Cjk compatibility ideograph-2f983
02F984 Cjk compatibility ideograph-2f984
02F985 Cjk compatibility ideograph-2f985
02F986 Cjk compatibility ideograph-2f986
02F987 Cjk compatibility ideograph-2f987
02F988 Cjk compatibility ideograph-2f988
02F989 Cjk compatibility ideograph-2f989
02F98A Cjk compatibility ideograph-2f98a
02F98B Cjk compatibility ideograph-2f98b
02F98C Cjk compatibility ideograph-2f98c
02F98D Cjk compatibility ideograph-2f98d
02F98E Cjk compatibility ideograph-2f98e
02F98F Cjk compatibility ideograph-2f98f
02F990 Cjk compatibility ideograph-2f990
02F991 Cjk compatibility ideograph-2f991
02F992 Cjk compatibility ideograph-2f992
02F993 Cjk compatibility ideograph-2f993
02F994 Cjk compatibility ideograph-2f994
02F995 Cjk compatibility ideograph-2f995
02F996 Cjk compatibility ideograph-2f996
02F997 Cjk compatibility ideograph-2f997
02F998 Cjk compatibility ideograph-2f998
02F999 Cjk compatibility ideograph-2f999
02F99A Cjk compatibility ideograph-2f99a
02F99B Cjk compatibility ideograph-2f99b
02F99C Cjk compatibility ideograph-2f99c
02F99D Cjk compatibility ideograph-2f99d
02F99E Cjk compatibility ideograph-2f99e
02F99F Cjk compatibility ideograph-2f99f
02F9A0 Cjk compatibility ideograph-2f9a0
02F9A1 Cjk compatibility ideograph-2f9a1
02F9A2 Cjk compatibility ideograph-2f9a2
02F9A3 Cjk compatibility ideograph-2f9a3
02F9A4 Cjk compatibility ideograph-2f9a4
02F9A5 Cjk compatibility ideograph-2f9a5
02F9A6 Cjk compatibility ideograph-2f9a6
02F9A7 Cjk compatibility ideograph-2f9a7
02F9A8 Cjk compatibility ideograph-2f9a8
02F9A9 Cjk compatibility ideograph-2f9a9
02F9AA Cjk compatibility ideograph-2f9aa
02F9AB Cjk compatibility ideograph-2f9ab
02F9AC Cjk compatibility ideograph-2f9ac
02F9AD Cjk compatibility ideograph-2f9ad
02F9AE Cjk compatibility ideograph-2f9ae
02F9AF Cjk compatibility ideograph-2f9af
02F9B0 Cjk compatibility ideograph-2f9b0
02F9B1 Cjk compatibility ideograph-2f9b1
02F9B2 Cjk compatibility ideograph-2f9b2
02F9B3 Cjk compatibility ideograph-2f9b3
02F9B4 Cjk compatibility ideograph-2f9b4
02F9B5 Cjk compatibility ideograph-2f9b5
02F9B6 Cjk compatibility ideograph-2f9b6
02F9B7 Cjk compatibility ideograph-2f9b7
02F9B8 Cjk compatibility ideograph-2f9b8
02F9B9 Cjk compatibility ideograph-2f9b9
02F9BA Cjk compatibility ideograph-2f9ba
02F9BB Cjk compatibility ideograph-2f9bb
02F9BC Cjk compatibility ideograph-2f9bc
02F9BD Cjk compatibility ideograph-2f9bd
02F9BE Cjk compatibility ideograph-2f9be
02F9BF Cjk compatibility ideograph-2f9bf
02F9C0 Cjk compatibility ideograph-2f9c0
02F9C1 Cjk compatibility ideograph-2f9c1
02F9C2 Cjk compatibility ideograph-2f9c2
02F9C3 Cjk compatibility ideograph-2f9c3
02F9C4 Cjk compatibility ideograph-2f9c4
02F9C5 Cjk compatibility ideograph-2f9c5
02F9C6 Cjk compatibility ideograph-2f9c6
02F9C7 Cjk compatibility ideograph-2f9c7
02F9C8 Cjk compatibility ideograph-2f9c8
02F9C9 Cjk compatibility ideograph-2f9c9
02F9CA Cjk compatibility ideograph-2f9ca
02F9CB Cjk compatibility ideograph-2f9cb
02F9CC Cjk compatibility ideograph-2f9cc
02F9CD Cjk compatibility ideograph-2f9cd
02F9CE Cjk compatibility ideograph-2f9ce
02F9CF Cjk compatibility ideograph-2f9cf
02F9D0 Cjk compatibility ideograph-2f9d0
02F9D1 Cjk compatibility ideograph-2f9d1
02F9D2 Cjk compatibility ideograph-2f9d2
02F9D3 Cjk compatibility ideograph-2f9d3
02F9D4 Cjk compatibility ideograph-2f9d4
02F9D5 Cjk compatibility ideograph-2f9d5
02F9D6 Cjk compatibility ideograph-2f9d6
02F9D7 Cjk compatibility ideograph-2f9d7
02F9D8 Cjk compatibility ideograph-2f9d8
02F9D9 Cjk compatibility ideograph-2f9d9
02F9DA Cjk compatibility ideograph-2f9da
02F9DB Cjk compatibility ideograph-2f9db
02F9DC Cjk compatibility ideograph-2f9dc
02F9DD Cjk compatibility ideograph-2f9dd
02F9DE Cjk compatibility ideograph-2f9de
02F9DF Cjk compatibility ideograph-2f9df
02F9E0 Cjk compatibility ideograph-2f9e0
02F9E1 Cjk compatibility ideograph-2f9e1
02F9E2 Cjk compatibility ideograph-2f9e2
02F9E3 Cjk compatibility ideograph-2f9e3
02F9E4 Cjk compatibility ideograph-2f9e4
02F9E5 Cjk compatibility ideograph-2f9e5
02F9E6 Cjk compatibility ideograph-2f9e6
02F9E7 Cjk compatibility ideograph-2f9e7
02F9E8 Cjk compatibility ideograph-2f9e8
02F9E9 Cjk compatibility ideograph-2f9e9
02F9EA Cjk compatibility ideograph-2f9ea
02F9EB Cjk compatibility ideograph-2f9eb
02F9EC Cjk compatibility ideograph-2f9ec
02F9ED Cjk compatibility ideograph-2f9ed
02F9EE Cjk compatibility ideograph-2f9ee
02F9EF Cjk compatibility ideograph-2f9ef
02F9F0 Cjk compatibility ideograph-2f9f0
02F9F1 Cjk compatibility ideograph-2f9f1
02F9F2 Cjk compatibility ideograph-2f9f2
02F9F3 Cjk compatibility ideograph-2f9f3
02F9F4 Cjk compatibility ideograph-2f9f4
02F9F5 Cjk compatibility ideograph-2f9f5
02F9F6 Cjk compatibility ideograph-2f9f6
02F9F7 Cjk compatibility ideograph-2f9f7
02F9F8 Cjk compatibility ideograph-2f9f8
02F9F9 Cjk compatibility ideograph-2f9f9
02F9FA Cjk compatibility ideograph-2f9fa
02F9FB Cjk compatibility ideograph-2f9fb
02F9FC Cjk compatibility ideograph-2f9fc
02F9FD Cjk compatibility ideograph-2f9fd
02F9FE Cjk compatibility ideograph-2f9fe
02F9FF Cjk compatibility ideograph-2f9ff
02FA00 Cjk compatibility ideograph-2fa00
02FA01 Cjk compatibility ideograph-2fa01
02FA02 Cjk compatibility ideograph-2fa02
02FA03 Cjk compatibility ideograph-2fa03
02FA04 Cjk compatibility ideograph-2fa04
02FA05 Cjk compatibility ideograph-2fa05
02FA06 Cjk compatibility ideograph-2fa06
02FA07 Cjk compatibility ideograph-2fa07
02FA08 Cjk compatibility ideograph-2fa08
02FA09 Cjk compatibility ideograph-2fa09
02FA0A Cjk compatibility ideograph-2fa0a
02FA0B Cjk compatibility ideograph-2fa0b
02FA0C Cjk compatibility ideograph-2fa0c
02FA0D Cjk compatibility ideograph-2fa0d
02FA0E Cjk compatibility ideograph-2fa0e
02FA0F Cjk compatibility ideograph-2fa0f
02FA10 Cjk compatibility ideograph-2fa10
02FA11 Cjk compatibility ideograph-2fa11
02FA12 Cjk compatibility ideograph-2fa12
02FA13 Cjk compatibility ideograph-2fa13
02FA14 Cjk compatibility ideograph-2fa14
02FA15 Cjk compatibility ideograph-2fa15
02FA16 Cjk compatibility ideograph-2fa16
02FA17 Cjk compatibility ideograph-2fa17
02FA18 Cjk compatibility ideograph-2fa18
02FA19 Cjk compatibility ideograph-2fa19
02FA1A Cjk compatibility ideograph-2fa1a
02FA1B Cjk compatibility ideograph-2fa1b
02FA1C Cjk compatibility ideograph-2fa1c
02FA1D Cjk compatibility ideograph-2fa1d
0E0001 Language tag
0E0020 Tag space
0E0021 Tag exclamation mark
0E0022 Tag quotation mark
0E0023 Tag number sign
0E0024 Tag dollar sign
0E0025 Tag percent sign
0E0026 Tag ampersand
0E0027 Tag apostrophe
0E0028 Tag left parenthesis
0E0029 Tag right parenthesis
0E002A Tag asterisk
0E002B Tag plus sign
0E002C Tag comma
0E002D Tag hyphen-minus
0E002E Tag full stop
0E002F Tag solidus
0E0030 Tag digit zero
0E0031 Tag digit one
0E0032 Tag digit two
0E0033 Tag digit three
0E0034 Tag digit four
0E0035 Tag digit five
0E0036 Tag digit six
0E0037 Tag digit seven
0E0038 Tag digit eight
0E0039 Tag digit nine
0E003A Tag colon
0E003B Tag semicolon
0E003C Tag less-than sign
0E003D Tag equals sign
0E003E Tag greater-than sign
0E003F Tag question mark
0E0040 Tag commercial at
0E0041 Tag latin capital letter a
0E0042 Tag latin capital letter b
0E0043 Tag latin capital letter c
0E0044 Tag latin capital letter d
0E0045 Tag latin capital letter e
0E0046 Tag latin capital letter f
0E0047 Tag latin capital letter g
0E0048 Tag latin capital letter h
0E0049 Tag latin capital letter i
0E004A Tag latin capital letter j
0E004B Tag latin capital letter k
0E004C Tag latin capital letter l
0E004D Tag latin capital letter m
0E004E Tag latin capital letter n
0E004F Tag latin capital letter o
0E0050 Tag latin capital letter p
0E0051 Tag latin capital letter q
0E0052 Tag latin capital letter r
0E0053 Tag latin capital letter s
0E0054 Tag latin capital letter t
";

pub const NAMES_83: &'static str = "0E0055 Tag latin capital letter u
0E0056 Tag latin capital letter v
0E0057 Tag latin capital letter w
0E0058 Tag latin capital letter x
0E0059 Tag latin capital letter y
0E005A Tag latin capital letter z
0E005B Tag left square bracket
0E005C Tag reverse solidus
0E005D Tag right square bracket
0E005E Tag circumflex accent
0E005F Tag low line
0E0060 Tag grave accent
0E0061 Tag latin small letter a
0E0062 Tag latin small letter b
0E0063 Tag latin small letter c
0E0064 Tag latin small letter d
0E0065 Tag latin small letter e
0E0066 Tag latin small letter f
0E0067 Tag latin small letter g
0E0068 Tag latin small letter h
0E0069 Tag latin small letter i
0E006A Tag latin small letter j
0E006B Tag latin small letter k
0E006C Tag latin small letter l
0E006D Tag latin small letter m
0E006E Tag latin small letter n
0E006F Tag latin small letter o
0E0070 Tag latin small letter p
0E0071 Tag latin small letter q
0E0072 Tag latin small letter r
0E0073 Tag latin small letter s
0E0074 Tag latin small letter t
0E0075 Tag latin small letter u
0E0076 Tag latin small letter v
0E0077 Tag latin small letter w
0E0078 Tag latin small letter x
0E0079 Tag latin small letter y
0E007A Tag latin small letter z
0E007B Tag left curly bracket
0E007C Tag vertical line
0E007D Tag right curly bracket
0E007E Tag tilde
0E007F Cancel tag
0E0100 Variation selector-17
0E0101 Variation selector-18
0E0102 Variation selector-19
0E0103 Variation selector-20
0E0104 Variation selector-21
0E0105 Variation selector-22
0E0106 Variation selector-23
0E0107 Variation selector-24
0E0108 Variation selector-25
0E0109 Variation selector-26
0E010A Variation selector-27
0E010B Variation selector-28
0E010C Variation selector-29
0E010D Variation selector-30
0E010E Variation selector-31
0E010F Variation selector-32
0E0110 Variation selector-33
0E0111 Variation selector-34
0E0112 Variation selector-35
0E0113 Variation selector-36
0E0114 Variation selector-37
0E0115 Variation selector-38
0E0116 Variation selector-39
0E0117 Variation selector-40
0E0118 Variation selector-41
0E0119 Variation selector-42
0E011A Variation selector-43
0E011B Variation selector-44
0E011C Variation selector-45
0E011D Variation selector-46
0E011E Variation selector-47
0E011F Variation selector-48
0E0120 Variation selector-49
0E0121 Variation selector-50
0E0122 Variation selector-51
0E0123 Variation selector-52
0E0124 Variation selector-53
0E0125 Variation selector-54
0E0126 Variation selector-55
0E0127 Variation selector-56
0E0128 Variation selector-57
0E0129 Variation selector-58
0E012A Variation selector-59
0E012B Variation selector-60
0E012C Variation selector-61
0E012D Variation selector-62
0E012E Variation selector-63
0E012F Variation selector-64
0E0130 Variation selector-65
0E0131 Variation selector-66
0E0132 Variation selector-67
0E0133 Variation selector-68
0E0134 Variation selector-69
0E0135 Variation selector-70
0E0136 Variation selector-71
0E0137 Variation selector-72
0E0138 Variation selector-73
0E0139 Variation selector-74
0E013A Variation selector-75
0E013B Variation selector-76
0E013C Variation selector-77
0E013D Variation selector-78
0E013E Variation selector-79
0E013F Variation selector-80
0E0140 Variation selector-81
0E0141 Variation selector-82
0E0142 Variation selector-83
0E0143 Variation selector-84
0E0144 Variation selector-85
0E0145 Variation selector-86
0E0146 Variation selector-87
0E0147 Variation selector-88
0E0148 Variation selector-89
0E0149 Variation selector-90
0E014A Variation selector-91
0E014B Variation selector-92
0E014C Variation selector-93
0E014D Variation selector-94
0E014E Variation selector-95
0E014F Variation selector-96
0E0150 Variation selector-97
0E0151 Variation selector-98
0E0152 Variation selector-99
0E0153 Variation selector-100
0E0154 Variation selector-101
0E0155 Variation selector-102
0E0156 Variation selector-103
0E0157 Variation selector-104
0E0158 Variation selector-105
0E0159 Variation selector-106
0E015A Variation selector-107
0E015B Variation selector-108
0E015C Variation selector-109
0E015D Variation selector-110
0E015E Variation selector-111
0E015F Variation selector-112
0E0160 Variation selector-113
0E0161 Variation selector-114
0E0162 Variation selector-115
0E0163 Variation selector-116
0E0164 Variation selector-117
0E0165 Variation selector-118
0E0166 Variation selector-119
0E0167 Variation selector-120
0E0168 Variation selector-121
0E0169 Variation selector-122
0E016A Variation selector-123
0E016B Variation selector-124
0E016C Variation selector-125
0E016D Variation selector-126
0E016E Variation selector-127
0E016F Variation selector-128
0E0170 Variation selector-129
0E0171 Variation selector-130
0E0172 Variation selector-131
0E0173 Variation selector-132
0E0174 Variation selector-133
0E0175 Variation selector-134
0E0176 Variation selector-135
0E0177 Variation selector-136
0E0178 Variation selector-137
0E0179 Variation selector-138
0E017A Variation selector-139
0E017B Variation selector-140
0E017C Variation selector-141
0E017D Variation selector-142
0E017E Variation selector-143
0E017F Variation selector-144
0E0180 Variation selector-145
0E0181 Variation selector-146
0E0182 Variation selector-147
0E0183 Variation selector-148
0E0184 Variation selector-149
0E0185 Variation selector-150
0E0186 Variation selector-151
0E0187 Variation selector-152
0E0188 Variation selector-153
0E0189 Variation selector-154
0E018A Variation selector-155
0E018B Variation selector-156
0E018C Variation selector-157
0E018D Variation selector-158
0E018E Variation selector-159
0E018F Variation selector-160
0E0190 Variation selector-161
0E0191 Variation selector-162
0E0192 Variation selector-163
0E0193 Variation selector-164
0E0194 Variation selector-165
0E0195 Variation selector-166
0E0196 Variation selector-167
0E0197 Variation selector-168
0E0198 Variation selector-169
0E0199 Variation selector-170
0E019A Variation selector-171
0E019B Variation selector-172
0E019C Variation selector-173
0E019D Variation selector-174
0E019E Variation selector-175
0E019F Variation selector-176
0E01A0 Variation selector-177
0E01A1 Variation selector-178
0E01A2 Variation selector-179
0E01A3 Variation selector-180
0E01A4 Variation selector-181
0E01A5 Variation selector-182
0E01A6 Variation selector-183
0E01A7 Variation selector-184
0E01A8 Variation selector-185
0E01A9 Variation selector-186
0E01AA Variation selector-187
0E01AB Variation selector-188
0E01AC Variation selector-189
0E01AD Variation selector-190
0E01AE Variation selector-191
0E01AF Variation selector-192
0E01B0 Variation selector-193
0E01B1 Variation selector-194
0E01B2 Variation selector-195
0E01B3 Variation selector-196
0E01B4 Variation selector-197
0E01B5 Variation selector-198
0E01B6 Variation selector-199
0E01B7 Variation selector-200
0E01B8 Variation selector-201
0E01B9 Variation selector-202
0E01BA Variation selector-203
0E01BB Variation selector-204
0E01BC Variation selector-205
0E01BD Variation selector-206
0E01BE Variation selector-207
0E01BF Variation selector-208
0E01C0 Variation selector-209
0E01C1 Variation selector-210
0E01C2 Variation selector-211
0E01C3 Variation selector-212
0E01C4 Variation selector-213
0E01C5 Variation selector-214
0E01C6 Variation selector-215
0E01C7 Variation selector-216
0E01C8 Variation selector-217
0E01C9 Variation selector-218
0E01CA Variation selector-219
0E01CB Variation selector-220
0E01CC Variation selector-221
0E01CD Variation selector-222
0E01CE Variation selector-223
0E01CF Variation selector-224
0E01D0 Variation selector-225
0E01D1 Variation selector-226
0E01D2 Variation selector-227
0E01D3 Variation selector-228
0E01D4 Variation selector-229
0E01D5 Variation selector-230
0E01D6 Variation selector-231
0E01D7 Variation selector-232
0E01D8 Variation selector-233
0E01D9 Variation selector-234
0E01DA Variation selector-235
0E01DB Variation selector-236
0E01DC Variation selector-237
0E01DD Variation selector-238
0E01DE Variation selector-239
0E01DF Variation selector-240
0E01E0 Variation selector-241
0E01E1 Variation selector-242
0E01E2 Variation selector-243
0E01E3 Variation selector-244
0E01E4 Variation selector-245
0E01E5 Variation selector-246
0E01E6 Variation selector-247
0E01E7 Variation selector-248
0E01E8 Variation selector-249
0E01E9 Variation selector-250
0E01EA Variation selector-251
0E01EB Variation selector-252
0E01EC Variation selector-253
0E01ED Variation selector-254
0E01EE Variation selector-255
0E01EF Variation selector-256
";

}
