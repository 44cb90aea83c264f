//! The Unicode blocks, as a table.
use vstd::prelude::*;

verus! {

/// The blocks of Unicode version 14: the first and the last codepoint, and the
/// description.
pub const BLOCKS: [&'static str; 1] = [BLOCKS_TEXT];

/// The blocks, a line each.
pub const BLOCKS_TEXT: &'static str = "000000 00007F C0 Controls and Basic Latin
000080 0000FF C1 Controls and Latin-1 Supplement
000100 00017F Latin Extended-A
000180 00024F Latin Extended-B
000250 0002AF IPA Extensions
0002B0 0002FF Spacing Modifier Letters
000300 00036F Combining Diacritical Marks
000370 0003FF Greek and Coptic
000400 0004FF Cyrillic
000500 00052F Cyrillic Supplement
000530 00058F Armenian
000590 0005FF Hebrew
000600 0006FF Arabic
000700 00074F Syriac
000750 00077F Arabic Supplement
000780 0007BF Thaana
0007C0 0007FF NKo
000800 00083F Samaritan
000840 00085F Mandaic
000860 00086F Syriac Supplement
000870 00089F Arabic Extended-B
0008A0 0008FF Arabic Extended-A
000900 00097F Devanagari
000980 0009FF Bengali
000A00 000A7F Gurmukhi
000A80 000AFF Gujarati
000B00 000B7F Oriya
000B80 000BFF Tamil
000C00 000C7F Telugu
000C80 000CFF Kannada
000D00 000D7F Malayalam
000D80 000DFF Sinhala
000E00 000E7F Thai
000E80 000EFF Lao
000F00 000FFF Tibetan
001000 00109F Myanmar
0010A0 0010FF Georgian
001100 0011FF Hangul Jamo
001200 00137F Ethiopic
001380 00139F Ethiopic Supplement
0013A0 0013FF Cherokee
001400 00167F Unified Canadian Aboriginal Syllabics
001680 00169F Ogham
0016A0 0016FF Runic
001700 00171F Tagalog
001720 00173F Hanunoo
001740 00175F Buhid
001760 00177F Tagbanwa
001780 0017FF Khmer
001800 0018AF Mongolian
0018B0 0018FF Unified Canadian Aboriginal Syllabics Extended
001900 00194F Limbu
001950 00197F Tai Le
001980 0019DF New Tai Lue
0019E0 0019FF Khmer Symbols
001A00 001A1F Buginese
001A20 001AAF Tai Tham
001AB0 001AFF Combining Diacritical Marks Extended
001B00 001B7F Balinese
001B80 001BBF Sundanese
001BC0 001BFF Batak
001C00 001C4F Lepcha
001C50 001C7F Ol Chiki
001C80 001C8F Cyrillic Extended-C
001C90 001CBF Georgian Extended
001CC0 001CCF Sundanese Supplement
001CD0 001CFF Vedic Extensions
001D00 001D7F Phonetic Extensions
001D80 001DBF Phonetic Extensions Supplement
001DC0 001DFF Combining Diacritical Marks Supplement
001E00 001EFF Latin Extended Additional
001F00 001FFF Greek Extended
002000 00206F General Punctuation
002070 00209F Superscripts and Subscripts
0020A0 0020CF Currency Symbols
0020D0 0020FF Combining Diacritical Marks for Symbols
002100 00214F Letterlike Symbols
002150 00218F Number Forms
002190 0021FF Arrows
002200 0022FF Mathematical Operators
002300 0023FF Miscellaneous Technical
002400 00243F Control Pictures
002440 00245F Optical Character Recognition
002460 0024FF Enclosed Alphanumerics
002500 00257F Box Drawing
002580 00259F Block Elements
0025A0 0025FF Geometric Shapes
002600 0026FF Miscellaneous Symbols
002700 0027BF Dingbats
0027C0 0027EF Miscellaneous Mathematical Symbols-A
0027F0 0027FF Supplemental Arrows-A
002800 0028FF Braille Patterns
002900 00297F Supplemental Arrows-B
002980 0029FF Miscellaneous Mathematical Symbols-B
002A00 002AFF Supplemental Mathematical Operators
002B00 002BFF Miscellaneous Symbols and Arrows
002C00 002C5F Glagolitic
002C60 002C7F Latin Extended-C
002C80 002CFF Coptic
002D00 002D2F Georgian Supplement
002D30 002D7F Tifinagh
002D80 002DDF Ethiopic Extended
002DE0 002DFF Cyrillic Extended-A
002E00 002E7F Supplemental Punctuation
002E80 002EFF CJK Radicals Supplement
002F00 002FDF Kangxi Radicals
002FF0 002FFF Ideographic Description Characters
003000 00303F CJK Symbols and Punctuation
003040 00309F Hiragana
0030A0 0030FF Katakana
003100 00312F Bopomofo
003130 00318F Hangul Compatibility Jamo
003190 00319F Kanbun
0031A0 0031BF Bopomofo Extended
0031C0 0031EF CJK Strokes
0031F0 0031FF Katakana Phonetic Extensions
003200 0032FF Enclosed CJK Letters and Months
003300 0033FF CJK Compatibility
003400 004DBF CJK Unified Ideographs Extension A
004DC0 004DFF Yijing Hexagram Symbols
004E00 009FFF CJK Unified Ideographs
00A000 00A48F Yi Syllables
00A490 00A4CF Yi Radicals
00A4D0 00A4FF Lisu
00A500 00A63F Vai
00A640 00A69F Cyrillic Extended-B
00A6A0 00A6FF Bamum
00A700 00A71F Modifier Tone Letters
00A720 00A7FF Latin Extended-D
00A800 00A82F Syloti Nagri
00A830 00A83F Common Indic Number Forms
00A840 00A87F Phags-pa
00A880 00A8DF Saurashtra
00A8E0 00A8FF Devanagari Extended
00A900 00A92F Kayah Li
00A930 00A95F Rejang
00A960 00A97F Hangul Jamo Extended-A
00A980 00A9DF Javanese
00A9E0 00A9FF Myanmar Extended-B
00AA00 00AA5F Cham
00AA60 00AA7F Myanmar Extended-A
00AA80 00AADF Tai Viet
00AAE0 00AAFF Meetei Mayek Extensions
00AB00 00AB2F Ethiopic Extended-A
00AB30 00AB6F Latin Extended-E
00AB70 00ABBF Cherokee Supplement
00ABC0 00ABFF Meetei Mayek
00AC00 00D7AF Hangul Syllables
00D7B0 00D7FF Hangul Jamo Extended-B
00D800 00DFFF Surrogates
00E000 00F8FF Private Use Area
00F900 00FAFF CJK Compatibility Ideographs
00FB00 00FB4F Alphabetic Presentation Forms
00FB50 00FDFF Arabic Presentation Forms-A
00FE00 00FE0F Variation Selectors
00FE10 00FE1F Vertical Forms
00FE20 00FE2F Combining Half Marks
00FE30 00FE4F CJK Compatibility Forms
00FE50 00FE6F Small Form Variants
00FE70 00FEFF Arabic Presentation Forms-B
00FF00 00FFEF Halfwidth and Fullwidth Forms
00FFF0 00FFFF Specials
010000 01007F Linear B Syllabary
010080 0100FF Linear B Ideograms
010100 01013F Aegean Numbers
010140 01018F Ancient Greek Numbers
010190 0101CF Ancient Symbols
0101D0 0101FF Phaistos Disc
010280 01029F Lycian
0102A0 0102DF Carian
0102E0 0102FF Coptic Epact Numbers
010300 01032F Old Italic
010330 01034F Gothic
010350 01037F Old Permic
010380 01039F Ugaritic
0103A0 0103DF Old Persian
010400 01044F Deseret
010450 01047F Shavian
010480 0104AF Osmanya
0104B0 0104FF Osage
010500 01052F Elbasan
010530 01056F Caucasian Albanian
010570 0105BF Vithkuqi
010600 01077F Linear A
010780 0107BF Latin Extended-F
010800 01083F Cypriot Syllabary
010840 01085F Imperial Aramaic
010860 01087F Palmyrene
010880 0108AF Nabataean
0108E0 0108FF Hatran
010900 01091F Phoenician
010920 01093F Lydian
010980 01099F Meroitic Hieroglyphs
0109A0 0109FF Meroitic Cursive
010A00 010A5F Kharoshthi
010A60 010A7F Old South Arabian
010A80 010A9F Old North Arabian
010AC0 010AFF Manichaean
010B00 010B3F Avestan
010B40 010B5F Inscriptional Parthian
010B60 010B7F Inscriptional Pahlavi
010B80 010BAF Psalter Pahlavi
010C00 010C4F Old Turkic
010C80 010CFF Old Hungarian
010D00 010D3F Hanifi Rohingya
010E60 010E7F Rumi Numeral Symbols
010E80 010EBF Yezidi
010F00 010F2F Old Sogdian
010F30 010F6F Sogdian
010F70 010FAF Old Uyghur
010FB0 010FDF Chorasmian
010FE0 010FFF Elymaic
011000 01107F Brahmi
011080 0110CF Kaithi
0110D0 0110FF Sora Sompeng
011100 01114F Chakma
011150 01117F Mahajani
011180 0111DF Sharada
0111E0 0111FF Sinhala Archaic Numbers
011200 01124F Khojki
011280 0112AF Multani
0112B0 0112FF Khudawadi
011300 01137F Grantha
011400 01147F Newa
011480 0114DF Tirhuta
011580 0115FF Siddham
011600 01165F Modi
011660 01167F Mongolian Supplement
011680 0116CF Takri
011700 01174F Ahom
011800 01184F Dogra
0118A0 0118FF Warang Citi
011900 01195F Dives Akuru
0119A0 0119FF Nandinagari
011A00 011A4F Zanabazar Square
011A50 011AAF Soyombo
011AB0 011ABF Unified Canadian Aboriginal Syllabics Extended-A
011AC0 011AFF Pau Cin Hau
011C00 011C6F Bhaiksuki
011C70 011CBF Marchen
011D00 011D5F Masaram Gondi
011D60 011DAF Gunjala Gondi
011EE0 011EFF Makasar
011FB0 011FBF Lisu Supplement
011FC0 011FFF Tamil Supplement
012000 0123FF Cuneiform
012400 01247F Cuneiform Numbers and Punctuation
012480 01254F Early Dynastic Cuneiform
012F90 012FFF Cypro-Minoan
013000 01342F Egyptian Hieroglyphs
013430 01343F Egyptian Hieroglyph Format Controls
014400 01467F Anatolian Hieroglyphs
016800 016A3F Bamum Supplement
016A40 016A6F Mro
016A70 016ACF Tangsa
016AD0 016AFF Bassa Vah
016B00 016B8F Pahawh Hmong
016E40 016E9F Medefaidrin
016F00 016F9F Miao
016FE0 016FFF Ideographic Symbols and Punctuation
017000 0187FF Tangut
018800 018AFF Tangut Components
018B00 018CFF Khitan Small Script
018D00 018D7F Tangut Supplement
01AFF0 01AFFF Kana Extended-B
01B000 01B0FF Kana Supplement
01B100 01B12F Kana Extended-A
01B130 01B16F Small Kana Extension
01B170 01B2FF Nushu
01BC00 01BC9F Duployan
01BCA0 01BCAF Shorthand Format Controls
01CF00 01CFCF Znamenny Musical Notation
01D000 01D0FF Byzantine Musical Symbols
01D100 01D1FF Musical Symbols
01D200 01D24F Ancient Greek Musical Notation
01D2E0 01D2FF Mayan Numerals
01D300 01D35F Tai Xuan Jing Symbols
01D360 01D37F Counting Rod Numerals
01D400 01D7FF Mathematical Alphanumeric Symbols
01D800 01DAAF Sutton SignWriting
01DF00 01DFFF Latin Extended-G
01E000 01E02F Glagolitic Supplement
01E100 01E14F Nyiakeng Puachue Hmong
01E290 01E2BF Toto
01E2C0 01E2FF Wancho
01E7E0 01E7FF Ethiopic Extended-B
01E800 01E8DF Mende Kikakui
01E900 01E95F Adlam
01EC70 01ECBF Indic Siyaq Numbers
01ED00 01ED4F Ottoman Siyaq Numbers
01EE00 01EEFF Arabic Mathematical Alphabetic Symbols
01F000 01F02F Mahjong Tiles
01F030 01F09F Domino Tiles
01F0A0 01F0FF Playing Cards
01F100 01F1FF Enclosed Alphanumeric Supplement
01F200 01F2FF Enclosed Ideographic Supplement
01F300 01F5FF Miscellaneous Symbols and Pictographs
01F600 01F64F Emoticons
01F650 01F67F Ornamental Dingbats
01F680 01F6FF Transport and Map Symbols
01F700 01F77F Alchemical Symbols
01F780 01F7FF Geometric Shapes Extended
01F800 01F8FF Supplemental Arrows-C
01F900 01F9FF Supplemental Symbols and Pictographs
01FA00 01FA6F Chess Symbols
01FA70 01FAFF Symbols and Pictographs Extended-A
01FB00 01FBFF Symbols for Legacy Computing
020000 02A6DF CJK Unified Ideographs Extension B
02A700 02B73F CJK Unified Ideographs Extension C
02B740 02B81F CJK Unified Ideographs Extension D
02B820 02CEAF CJK Unified Ideographs Extension E
02CEB0 02EBEF CJK Unified Ideographs Extension F
02F800 02FA1F CJK Compatibility Ideographs Supplement
030000 03134F CJK Unified Ideographs Extension G
0E0000 0E007F Tags
0E0100 0E01EF Variation Selectors Supplement
0F0000 0FFFFF Supplementary Private Use Area-A
100000 10FFFF Supplementary Private Use Area-B
";

}
