//! What holds of the names of keys.

use vstd::prelude::*;

use crate::keys::{key_code, key_name, named_code, named_key, Key};
use crate::text::{all_ascii, in_small_letters, lowercase};

verus! {

/// How the names of keys are spelled in small letters.
proof fn lemma_small_spellings()
    ensures
        "space"@.len() == 5 && "space"@[0] == 's' && "space"@[1] == 'p' && "space"@[2] == 'a' && "space"@[3] == 'c' && "space"@[4] == 'e',
        "enter"@.len() == 5 && "enter"@[0] == 'e' && "enter"@[1] == 'n' && "enter"@[2] == 't' && "enter"@[3] == 'e' && "enter"@[4] == 'r',
        "return"@.len() == 6 && "return"@[0] == 'r' && "return"@[1] == 'e' && "return"@[2] == 't' && "return"@[3] == 'u' && "return"@[4] == 'r' && "return"@[5] == 'n',
        "tab"@.len() == 3 && "tab"@[0] == 't' && "tab"@[1] == 'a' && "tab"@[2] == 'b',
        "backspace"@.len() == 9 && "backspace"@[0] == 'b' && "backspace"@[1] == 'a' && "backspace"@[2] == 'c' && "backspace"@[3] == 'k' && "backspace"@[4] == 's' && "backspace"@[5] == 'p' && "backspace"@[6] == 'a' && "backspace"@[7] == 'c' && "backspace"@[8] == 'e',
        "escape"@.len() == 6 && "escape"@[0] == 'e' && "escape"@[1] == 's' && "escape"@[2] == 'c' && "escape"@[3] == 'a' && "escape"@[4] == 'p' && "escape"@[5] == 'e',
        "esc"@.len() == 3 && "esc"@[0] == 'e' && "esc"@[1] == 's' && "esc"@[2] == 'c',
        "insert"@.len() == 6 && "insert"@[0] == 'i' && "insert"@[1] == 'n' && "insert"@[2] == 's' && "insert"@[3] == 'e' && "insert"@[4] == 'r' && "insert"@[5] == 't',
        "delete"@.len() == 6 && "delete"@[0] == 'd' && "delete"@[1] == 'e' && "delete"@[2] == 'l' && "delete"@[3] == 'e' && "delete"@[4] == 't' && "delete"@[5] == 'e',
        "home"@.len() == 4 && "home"@[0] == 'h' && "home"@[1] == 'o' && "home"@[2] == 'm' && "home"@[3] == 'e',
        "end"@.len() == 3 && "end"@[0] == 'e' && "end"@[1] == 'n' && "end"@[2] == 'd',
        "pageup"@.len() == 6 && "pageup"@[0] == 'p' && "pageup"@[1] == 'a' && "pageup"@[2] == 'g' && "pageup"@[3] == 'e' && "pageup"@[4] == 'u' && "pageup"@[5] == 'p',
        "pagedown"@.len() == 8 && "pagedown"@[0] == 'p' && "pagedown"@[1] == 'a' && "pagedown"@[2] == 'g' && "pagedown"@[3] == 'e' && "pagedown"@[4] == 'd' && "pagedown"@[5] == 'o' && "pagedown"@[6] == 'w' && "pagedown"@[7] == 'n',
        "arrowup"@.len() == 7 && "arrowup"@[0] == 'a' && "arrowup"@[1] == 'r' && "arrowup"@[2] == 'r' && "arrowup"@[3] == 'o' && "arrowup"@[4] == 'w' && "arrowup"@[5] == 'u' && "arrowup"@[6] == 'p',
        "up"@.len() == 2 && "up"@[0] == 'u' && "up"@[1] == 'p',
        "arrowdown"@.len() == 9 && "arrowdown"@[0] == 'a' && "arrowdown"@[1] == 'r' && "arrowdown"@[2] == 'r' && "arrowdown"@[3] == 'o' && "arrowdown"@[4] == 'w' && "arrowdown"@[5] == 'd' && "arrowdown"@[6] == 'o' && "arrowdown"@[7] == 'w' && "arrowdown"@[8] == 'n',
        "down"@.len() == 4 && "down"@[0] == 'd' && "down"@[1] == 'o' && "down"@[2] == 'w' && "down"@[3] == 'n',
        "arrowleft"@.len() == 9 && "arrowleft"@[0] == 'a' && "arrowleft"@[1] == 'r' && "arrowleft"@[2] == 'r' && "arrowleft"@[3] == 'o' && "arrowleft"@[4] == 'w' && "arrowleft"@[5] == 'l' && "arrowleft"@[6] == 'e' && "arrowleft"@[7] == 'f' && "arrowleft"@[8] == 't',
        "left"@.len() == 4 && "left"@[0] == 'l' && "left"@[1] == 'e' && "left"@[2] == 'f' && "left"@[3] == 't',
        "arrowright"@.len() == 10 && "arrowright"@[0] == 'a' && "arrowright"@[1] == 'r' && "arrowright"@[2] == 'r' && "arrowright"@[3] == 'o' && "arrowright"@[4] == 'w' && "arrowright"@[5] == 'r' && "arrowright"@[6] == 'i' && "arrowright"@[7] == 'g' && "arrowright"@[8] == 'h' && "arrowright"@[9] == 't',
        "right"@.len() == 5 && "right"@[0] == 'r' && "right"@[1] == 'i' && "right"@[2] == 'g' && "right"@[3] == 'h' && "right"@[4] == 't',
        "f1"@.len() == 2 && "f1"@[0] == 'f' && "f1"@[1] == '1',
        "f2"@.len() == 2 && "f2"@[0] == 'f' && "f2"@[1] == '2',
        "f3"@.len() == 2 && "f3"@[0] == 'f' && "f3"@[1] == '3',
        "f4"@.len() == 2 && "f4"@[0] == 'f' && "f4"@[1] == '4',
        "f5"@.len() == 2 && "f5"@[0] == 'f' && "f5"@[1] == '5',
        "f6"@.len() == 2 && "f6"@[0] == 'f' && "f6"@[1] == '6',
        "f7"@.len() == 2 && "f7"@[0] == 'f' && "f7"@[1] == '7',
        "f8"@.len() == 2 && "f8"@[0] == 'f' && "f8"@[1] == '8',
        "f9"@.len() == 2 && "f9"@[0] == 'f' && "f9"@[1] == '9',
        "f10"@.len() == 3 && "f10"@[0] == 'f' && "f10"@[1] == '1' && "f10"@[2] == '0',
        "f11"@.len() == 3 && "f11"@[0] == 'f' && "f11"@[1] == '1' && "f11"@[2] == '1',
        "f12"@.len() == 3 && "f12"@[0] == 'f' && "f12"@[1] == '1' && "f12"@[2] == '2',
        "a"@.len() == 1 && "a"@[0] == 'a',
        "keya"@.len() == 4 && "keya"@[0] == 'k' && "keya"@[1] == 'e' && "keya"@[2] == 'y' && "keya"@[3] == 'a',
        "b"@.len() == 1 && "b"@[0] == 'b',
        "keyb"@.len() == 4 && "keyb"@[0] == 'k' && "keyb"@[1] == 'e' && "keyb"@[2] == 'y' && "keyb"@[3] == 'b',
        "c"@.len() == 1 && "c"@[0] == 'c',
        "keyc"@.len() == 4 && "keyc"@[0] == 'k' && "keyc"@[1] == 'e' && "keyc"@[2] == 'y' && "keyc"@[3] == 'c',
        "d"@.len() == 1 && "d"@[0] == 'd',
        "keyd"@.len() == 4 && "keyd"@[0] == 'k' && "keyd"@[1] == 'e' && "keyd"@[2] == 'y' && "keyd"@[3] == 'd',
        "e"@.len() == 1 && "e"@[0] == 'e',
        "keye"@.len() == 4 && "keye"@[0] == 'k' && "keye"@[1] == 'e' && "keye"@[2] == 'y' && "keye"@[3] == 'e',
        "f"@.len() == 1 && "f"@[0] == 'f',
        "keyf"@.len() == 4 && "keyf"@[0] == 'k' && "keyf"@[1] == 'e' && "keyf"@[2] == 'y' && "keyf"@[3] == 'f',
        "g"@.len() == 1 && "g"@[0] == 'g',
        "keyg"@.len() == 4 && "keyg"@[0] == 'k' && "keyg"@[1] == 'e' && "keyg"@[2] == 'y' && "keyg"@[3] == 'g',
        "h"@.len() == 1 && "h"@[0] == 'h',
        "keyh"@.len() == 4 && "keyh"@[0] == 'k' && "keyh"@[1] == 'e' && "keyh"@[2] == 'y' && "keyh"@[3] == 'h',
        "i"@.len() == 1 && "i"@[0] == 'i',
        "keyi"@.len() == 4 && "keyi"@[0] == 'k' && "keyi"@[1] == 'e' && "keyi"@[2] == 'y' && "keyi"@[3] == 'i',
        "j"@.len() == 1 && "j"@[0] == 'j',
        "keyj"@.len() == 4 && "keyj"@[0] == 'k' && "keyj"@[1] == 'e' && "keyj"@[2] == 'y' && "keyj"@[3] == 'j',
        "k"@.len() == 1 && "k"@[0] == 'k',
        "keyk"@.len() == 4 && "keyk"@[0] == 'k' && "keyk"@[1] == 'e' && "keyk"@[2] == 'y' && "keyk"@[3] == 'k',
        "l"@.len() == 1 && "l"@[0] == 'l',
        "keyl"@.len() == 4 && "keyl"@[0] == 'k' && "keyl"@[1] == 'e' && "keyl"@[2] == 'y' && "keyl"@[3] == 'l',
        "m"@.len() == 1 && "m"@[0] == 'm',
        "keym"@.len() == 4 && "keym"@[0] == 'k' && "keym"@[1] == 'e' && "keym"@[2] == 'y' && "keym"@[3] == 'm',
        "n"@.len() == 1 && "n"@[0] == 'n',
        "keyn"@.len() == 4 && "keyn"@[0] == 'k' && "keyn"@[1] == 'e' && "keyn"@[2] == 'y' && "keyn"@[3] == 'n',
        "o"@.len() == 1 && "o"@[0] == 'o',
        "keyo"@.len() == 4 && "keyo"@[0] == 'k' && "keyo"@[1] == 'e' && "keyo"@[2] == 'y' && "keyo"@[3] == 'o',
        "p"@.len() == 1 && "p"@[0] == 'p',
        "keyp"@.len() == 4 && "keyp"@[0] == 'k' && "keyp"@[1] == 'e' && "keyp"@[2] == 'y' && "keyp"@[3] == 'p',
        "q"@.len() == 1 && "q"@[0] == 'q',
        "keyq"@.len() == 4 && "keyq"@[0] == 'k' && "keyq"@[1] == 'e' && "keyq"@[2] == 'y' && "keyq"@[3] == 'q',
        "r"@.len() == 1 && "r"@[0] == 'r',
        "keyr"@.len() == 4 && "keyr"@[0] == 'k' && "keyr"@[1] == 'e' && "keyr"@[2] == 'y' && "keyr"@[3] == 'r',
        "s"@.len() == 1 && "s"@[0] == 's',
        "keys"@.len() == 4 && "keys"@[0] == 'k' && "keys"@[1] == 'e' && "keys"@[2] == 'y' && "keys"@[3] == 's',
        "t"@.len() == 1 && "t"@[0] == 't',
        "keyt"@.len() == 4 && "keyt"@[0] == 'k' && "keyt"@[1] == 'e' && "keyt"@[2] == 'y' && "keyt"@[3] == 't',
        "u"@.len() == 1 && "u"@[0] == 'u',
        "keyu"@.len() == 4 && "keyu"@[0] == 'k' && "keyu"@[1] == 'e' && "keyu"@[2] == 'y' && "keyu"@[3] == 'u',
        "v"@.len() == 1 && "v"@[0] == 'v',
        "keyv"@.len() == 4 && "keyv"@[0] == 'k' && "keyv"@[1] == 'e' && "keyv"@[2] == 'y' && "keyv"@[3] == 'v',
        "w"@.len() == 1 && "w"@[0] == 'w',
        "keyw"@.len() == 4 && "keyw"@[0] == 'k' && "keyw"@[1] == 'e' && "keyw"@[2] == 'y' && "keyw"@[3] == 'w',
        "x"@.len() == 1 && "x"@[0] == 'x',
        "keyx"@.len() == 4 && "keyx"@[0] == 'k' && "keyx"@[1] == 'e' && "keyx"@[2] == 'y' && "keyx"@[3] == 'x',
        "y"@.len() == 1 && "y"@[0] == 'y',
        "keyy"@.len() == 4 && "keyy"@[0] == 'k' && "keyy"@[1] == 'e' && "keyy"@[2] == 'y' && "keyy"@[3] == 'y',
        "z"@.len() == 1 && "z"@[0] == 'z',
        "keyz"@.len() == 4 && "keyz"@[0] == 'k' && "keyz"@[1] == 'e' && "keyz"@[2] == 'y' && "keyz"@[3] == 'z',
        "0"@.len() == 1 && "0"@[0] == '0',
        "digit0"@.len() == 6 && "digit0"@[0] == 'd' && "digit0"@[1] == 'i' && "digit0"@[2] == 'g' && "digit0"@[3] == 'i' && "digit0"@[4] == 't' && "digit0"@[5] == '0',
        "1"@.len() == 1 && "1"@[0] == '1',
        "digit1"@.len() == 6 && "digit1"@[0] == 'd' && "digit1"@[1] == 'i' && "digit1"@[2] == 'g' && "digit1"@[3] == 'i' && "digit1"@[4] == 't' && "digit1"@[5] == '1',
        "2"@.len() == 1 && "2"@[0] == '2',
        "digit2"@.len() == 6 && "digit2"@[0] == 'd' && "digit2"@[1] == 'i' && "digit2"@[2] == 'g' && "digit2"@[3] == 'i' && "digit2"@[4] == 't' && "digit2"@[5] == '2',
        "3"@.len() == 1 && "3"@[0] == '3',
        "digit3"@.len() == 6 && "digit3"@[0] == 'd' && "digit3"@[1] == 'i' && "digit3"@[2] == 'g' && "digit3"@[3] == 'i' && "digit3"@[4] == 't' && "digit3"@[5] == '3',
        "4"@.len() == 1 && "4"@[0] == '4',
        "digit4"@.len() == 6 && "digit4"@[0] == 'd' && "digit4"@[1] == 'i' && "digit4"@[2] == 'g' && "digit4"@[3] == 'i' && "digit4"@[4] == 't' && "digit4"@[5] == '4',
        "5"@.len() == 1 && "5"@[0] == '5',
        "digit5"@.len() == 6 && "digit5"@[0] == 'd' && "digit5"@[1] == 'i' && "digit5"@[2] == 'g' && "digit5"@[3] == 'i' && "digit5"@[4] == 't' && "digit5"@[5] == '5',
        "6"@.len() == 1 && "6"@[0] == '6',
        "digit6"@.len() == 6 && "digit6"@[0] == 'd' && "digit6"@[1] == 'i' && "digit6"@[2] == 'g' && "digit6"@[3] == 'i' && "digit6"@[4] == 't' && "digit6"@[5] == '6',
        "7"@.len() == 1 && "7"@[0] == '7',
        "digit7"@.len() == 6 && "digit7"@[0] == 'd' && "digit7"@[1] == 'i' && "digit7"@[2] == 'g' && "digit7"@[3] == 'i' && "digit7"@[4] == 't' && "digit7"@[5] == '7',
        "8"@.len() == 1 && "8"@[0] == '8',
        "digit8"@.len() == 6 && "digit8"@[0] == 'd' && "digit8"@[1] == 'i' && "digit8"@[2] == 'g' && "digit8"@[3] == 'i' && "digit8"@[4] == 't' && "digit8"@[5] == '8',
        "9"@.len() == 1 && "9"@[0] == '9',
        "digit9"@.len() == 6 && "digit9"@[0] == 'd' && "digit9"@[1] == 'i' && "digit9"@[2] == 'g' && "digit9"@[3] == 'i' && "digit9"@[4] == 't' && "digit9"@[5] == '9',
        "minus"@.len() == 5 && "minus"@[0] == 'm' && "minus"@[1] == 'i' && "minus"@[2] == 'n' && "minus"@[3] == 'u' && "minus"@[4] == 's',
        "-"@.len() == 1 && "-"@[0] == '-',
        "equal"@.len() == 5 && "equal"@[0] == 'e' && "equal"@[1] == 'q' && "equal"@[2] == 'u' && "equal"@[3] == 'a' && "equal"@[4] == 'l',
        "="@.len() == 1 && "="@[0] == '=',
        "bracketleft"@.len() == 11 && "bracketleft"@[0] == 'b' && "bracketleft"@[1] == 'r' && "bracketleft"@[2] == 'a' && "bracketleft"@[3] == 'c' && "bracketleft"@[4] == 'k' && "bracketleft"@[5] == 'e' && "bracketleft"@[6] == 't' && "bracketleft"@[7] == 'l' && "bracketleft"@[8] == 'e' && "bracketleft"@[9] == 'f' && "bracketleft"@[10] == 't',
        "["@.len() == 1 && "["@[0] == '[',
        "bracketright"@.len() == 12 && "bracketright"@[0] == 'b' && "bracketright"@[1] == 'r' && "bracketright"@[2] == 'a' && "bracketright"@[3] == 'c' && "bracketright"@[4] == 'k' && "bracketright"@[5] == 'e' && "bracketright"@[6] == 't' && "bracketright"@[7] == 'r' && "bracketright"@[8] == 'i' && "bracketright"@[9] == 'g' && "bracketright"@[10] == 'h' && "bracketright"@[11] == 't',
        "]"@.len() == 1 && "]"@[0] == ']',
        "backslash"@.len() == 9 && "backslash"@[0] == 'b' && "backslash"@[1] == 'a' && "backslash"@[2] == 'c' && "backslash"@[3] == 'k' && "backslash"@[4] == 's' && "backslash"@[5] == 'l' && "backslash"@[6] == 'a' && "backslash"@[7] == 's' && "backslash"@[8] == 'h',
        "\\"@.len() == 1 && "\\"@[0] == '\\',
        "semicolon"@.len() == 9 && "semicolon"@[0] == 's' && "semicolon"@[1] == 'e' && "semicolon"@[2] == 'm' && "semicolon"@[3] == 'i' && "semicolon"@[4] == 'c' && "semicolon"@[5] == 'o' && "semicolon"@[6] == 'l' && "semicolon"@[7] == 'o' && "semicolon"@[8] == 'n',
        ";"@.len() == 1 && ";"@[0] == ';',
        "quote"@.len() == 5 && "quote"@[0] == 'q' && "quote"@[1] == 'u' && "quote"@[2] == 'o' && "quote"@[3] == 't' && "quote"@[4] == 'e',
        "'"@.len() == 1 && "'"@[0] == '\'',
        "backquote"@.len() == 9 && "backquote"@[0] == 'b' && "backquote"@[1] == 'a' && "backquote"@[2] == 'c' && "backquote"@[3] == 'k' && "backquote"@[4] == 'q' && "backquote"@[5] == 'u' && "backquote"@[6] == 'o' && "backquote"@[7] == 't' && "backquote"@[8] == 'e',
        "`"@.len() == 1 && "`"@[0] == '`',
        "comma"@.len() == 5 && "comma"@[0] == 'c' && "comma"@[1] == 'o' && "comma"@[2] == 'm' && "comma"@[3] == 'm' && "comma"@[4] == 'a',
        ","@.len() == 1 && ","@[0] == ',',
        "period"@.len() == 6 && "period"@[0] == 'p' && "period"@[1] == 'e' && "period"@[2] == 'r' && "period"@[3] == 'i' && "period"@[4] == 'o' && "period"@[5] == 'd',
        "."@.len() == 1 && "."@[0] == '.',
        "slash"@.len() == 5 && "slash"@[0] == 's' && "slash"@[1] == 'l' && "slash"@[2] == 'a' && "slash"@[3] == 's' && "slash"@[4] == 'h',
        "/"@.len() == 1 && "/"@[0] == '/',
{
    reveal_strlit("space");
    reveal_strlit("enter");
    reveal_strlit("return");
    reveal_strlit("tab");
    reveal_strlit("backspace");
    reveal_strlit("escape");
    reveal_strlit("esc");
    reveal_strlit("insert");
    reveal_strlit("delete");
    reveal_strlit("home");
    reveal_strlit("end");
    reveal_strlit("pageup");
    reveal_strlit("pagedown");
    reveal_strlit("arrowup");
    reveal_strlit("up");
    reveal_strlit("arrowdown");
    reveal_strlit("down");
    reveal_strlit("arrowleft");
    reveal_strlit("left");
    reveal_strlit("arrowright");
    reveal_strlit("right");
    reveal_strlit("f1");
    reveal_strlit("f2");
    reveal_strlit("f3");
    reveal_strlit("f4");
    reveal_strlit("f5");
    reveal_strlit("f6");
    reveal_strlit("f7");
    reveal_strlit("f8");
    reveal_strlit("f9");
    reveal_strlit("f10");
    reveal_strlit("f11");
    reveal_strlit("f12");
    reveal_strlit("a");
    reveal_strlit("keya");
    reveal_strlit("b");
    reveal_strlit("keyb");
    reveal_strlit("c");
    reveal_strlit("keyc");
    reveal_strlit("d");
    reveal_strlit("keyd");
    reveal_strlit("e");
    reveal_strlit("keye");
    reveal_strlit("f");
    reveal_strlit("keyf");
    reveal_strlit("g");
    reveal_strlit("keyg");
    reveal_strlit("h");
    reveal_strlit("keyh");
    reveal_strlit("i");
    reveal_strlit("keyi");
    reveal_strlit("j");
    reveal_strlit("keyj");
    reveal_strlit("k");
    reveal_strlit("keyk");
    reveal_strlit("l");
    reveal_strlit("keyl");
    reveal_strlit("m");
    reveal_strlit("keym");
    reveal_strlit("n");
    reveal_strlit("keyn");
    reveal_strlit("o");
    reveal_strlit("keyo");
    reveal_strlit("p");
    reveal_strlit("keyp");
    reveal_strlit("q");
    reveal_strlit("keyq");
    reveal_strlit("r");
    reveal_strlit("keyr");
    reveal_strlit("s");
    reveal_strlit("keys");
    reveal_strlit("t");
    reveal_strlit("keyt");
    reveal_strlit("u");
    reveal_strlit("keyu");
    reveal_strlit("v");
    reveal_strlit("keyv");
    reveal_strlit("w");
    reveal_strlit("keyw");
    reveal_strlit("x");
    reveal_strlit("keyx");
    reveal_strlit("y");
    reveal_strlit("keyy");
    reveal_strlit("z");
    reveal_strlit("keyz");
    reveal_strlit("0");
    reveal_strlit("digit0");
    reveal_strlit("1");
    reveal_strlit("digit1");
    reveal_strlit("2");
    reveal_strlit("digit2");
    reveal_strlit("3");
    reveal_strlit("digit3");
    reveal_strlit("4");
    reveal_strlit("digit4");
    reveal_strlit("5");
    reveal_strlit("digit5");
    reveal_strlit("6");
    reveal_strlit("digit6");
    reveal_strlit("7");
    reveal_strlit("digit7");
    reveal_strlit("8");
    reveal_strlit("digit8");
    reveal_strlit("9");
    reveal_strlit("digit9");
    reveal_strlit("minus");
    reveal_strlit("-");
    reveal_strlit("equal");
    reveal_strlit("=");
    reveal_strlit("bracketleft");
    reveal_strlit("[");
    reveal_strlit("bracketright");
    reveal_strlit("]");
    reveal_strlit("backslash");
    reveal_strlit("\\");
    reveal_strlit("semicolon");
    reveal_strlit(";");
    reveal_strlit("quote");
    reveal_strlit("'");
    reveal_strlit("backquote");
    reveal_strlit("`");
    reveal_strlit("comma");
    reveal_strlit(",");
    reveal_strlit("period");
    reveal_strlit(".");
    reveal_strlit("slash");
    reveal_strlit("/");
}

#[verifier::spinoff_prover]
proof fn lemma_special_names(key: Key)
    requires
        key == Key::Space || key == Key::Enter || key == Key::Tab || key == Key::Backspace || key == Key::Escape || key == Key::Insert || key == Key::Delete || key == Key::Home || key == Key::End || key == Key::PageUp || key == Key::PageDown || key == Key::ArrowUp || key == Key::ArrowDown || key == Key::ArrowLeft || key == Key::ArrowRight,
    ensures
        key_name(key) matches Some(name) && all_ascii(name) && named_key(in_small_letters(name))
            == Some(key),
{
    lemma_small_spellings();
    let name = key_name(key)->0;
    let small = in_small_letters(name);
    match key {
        Key::Space => {
            reveal_strlit("Space");
            assert(name.len() == 5 && name[0] == 'S' && name[1] == 'p' && name[2] == 'a' && name[3] == 'c' && name[4] == 'e');
            assert(small =~= "space"@);
        },
        Key::Enter => {
            reveal_strlit("Enter");
            assert(name.len() == 5 && name[0] == 'E' && name[1] == 'n' && name[2] == 't' && name[3] == 'e' && name[4] == 'r');
            assert(small =~= "enter"@);
        },
        Key::Tab => {
            reveal_strlit("Tab");
            assert(name.len() == 3 && name[0] == 'T' && name[1] == 'a' && name[2] == 'b');
            assert(small =~= "tab"@);
        },
        Key::Backspace => {
            reveal_strlit("Backspace");
            assert(name.len() == 9 && name[0] == 'B' && name[1] == 'a' && name[2] == 'c' && name[3] == 'k' && name[4] == 's' && name[5] == 'p' && name[6] == 'a' && name[7] == 'c' && name[8] == 'e');
            assert(small =~= "backspace"@);
        },
        Key::Escape => {
            reveal_strlit("Escape");
            assert(name.len() == 6 && name[0] == 'E' && name[1] == 's' && name[2] == 'c' && name[3] == 'a' && name[4] == 'p' && name[5] == 'e');
            assert(small =~= "escape"@);
        },
        Key::Insert => {
            reveal_strlit("Insert");
            assert(name.len() == 6 && name[0] == 'I' && name[1] == 'n' && name[2] == 's' && name[3] == 'e' && name[4] == 'r' && name[5] == 't');
            assert(small =~= "insert"@);
        },
        Key::Delete => {
            reveal_strlit("Delete");
            assert(name.len() == 6 && name[0] == 'D' && name[1] == 'e' && name[2] == 'l' && name[3] == 'e' && name[4] == 't' && name[5] == 'e');
            assert(small =~= "delete"@);
        },
        Key::Home => {
            reveal_strlit("Home");
            assert(name.len() == 4 && name[0] == 'H' && name[1] == 'o' && name[2] == 'm' && name[3] == 'e');
            assert(small =~= "home"@);
        },
        Key::End => {
            reveal_strlit("End");
            assert(name.len() == 3 && name[0] == 'E' && name[1] == 'n' && name[2] == 'd');
            assert(small =~= "end"@);
        },
        Key::PageUp => {
            reveal_strlit("PageUp");
            assert(name.len() == 6 && name[0] == 'P' && name[1] == 'a' && name[2] == 'g' && name[3] == 'e' && name[4] == 'U' && name[5] == 'p');
            assert(small =~= "pageup"@);
        },
        Key::PageDown => {
            reveal_strlit("PageDown");
            assert(name.len() == 8 && name[0] == 'P' && name[1] == 'a' && name[2] == 'g' && name[3] == 'e' && name[4] == 'D' && name[5] == 'o' && name[6] == 'w' && name[7] == 'n');
            assert(small =~= "pagedown"@);
        },
        Key::ArrowUp => {
            reveal_strlit("ArrowUp");
            assert(name.len() == 7 && name[0] == 'A' && name[1] == 'r' && name[2] == 'r' && name[3] == 'o' && name[4] == 'w' && name[5] == 'U' && name[6] == 'p');
            assert(small =~= "arrowup"@);
        },
        Key::ArrowDown => {
            reveal_strlit("ArrowDown");
            assert(name.len() == 9 && name[0] == 'A' && name[1] == 'r' && name[2] == 'r' && name[3] == 'o' && name[4] == 'w' && name[5] == 'D' && name[6] == 'o' && name[7] == 'w' && name[8] == 'n');
            assert(small =~= "arrowdown"@);
        },
        Key::ArrowLeft => {
            reveal_strlit("ArrowLeft");
            assert(name.len() == 9 && name[0] == 'A' && name[1] == 'r' && name[2] == 'r' && name[3] == 'o' && name[4] == 'w' && name[5] == 'L' && name[6] == 'e' && name[7] == 'f' && name[8] == 't');
            assert(small =~= "arrowleft"@);
        },
        Key::ArrowRight => {
            reveal_strlit("ArrowRight");
            assert(name.len() == 10 && name[0] == 'A' && name[1] == 'r' && name[2] == 'r' && name[3] == 'o' && name[4] == 'w' && name[5] == 'R' && name[6] == 'i' && name[7] == 'g' && name[8] == 'h' && name[9] == 't');
            assert(small =~= "arrowright"@);
        },
        _ => {},
    }
}

#[verifier::spinoff_prover]
proof fn lemma_function_names(key: Key)
    requires
        key == Key::F1 || key == Key::F2 || key == Key::F3 || key == Key::F4 || key == Key::F5 || key == Key::F6 || key == Key::F7 || key == Key::F8 || key == Key::F9 || key == Key::F10 || key == Key::F11 || key == Key::F12,
    ensures
        key_name(key) matches Some(name) && all_ascii(name) && named_key(in_small_letters(name))
            == Some(key),
{
    lemma_small_spellings();
    let name = key_name(key)->0;
    let small = in_small_letters(name);
    match key {
        Key::F1 => {
            reveal_strlit("F1");
            assert(name.len() == 2 && name[0] == 'F' && name[1] == '1');
            assert(small =~= "f1"@);
        },
        Key::F2 => {
            reveal_strlit("F2");
            assert(name.len() == 2 && name[0] == 'F' && name[1] == '2');
            assert(small =~= "f2"@);
        },
        Key::F3 => {
            reveal_strlit("F3");
            assert(name.len() == 2 && name[0] == 'F' && name[1] == '3');
            assert(small =~= "f3"@);
        },
        Key::F4 => {
            reveal_strlit("F4");
            assert(name.len() == 2 && name[0] == 'F' && name[1] == '4');
            assert(small =~= "f4"@);
        },
        Key::F5 => {
            reveal_strlit("F5");
            assert(name.len() == 2 && name[0] == 'F' && name[1] == '5');
            assert(small =~= "f5"@);
        },
        Key::F6 => {
            reveal_strlit("F6");
            assert(name.len() == 2 && name[0] == 'F' && name[1] == '6');
            assert(small =~= "f6"@);
        },
        Key::F7 => {
            reveal_strlit("F7");
            assert(name.len() == 2 && name[0] == 'F' && name[1] == '7');
            assert(small =~= "f7"@);
        },
        Key::F8 => {
            reveal_strlit("F8");
            assert(name.len() == 2 && name[0] == 'F' && name[1] == '8');
            assert(small =~= "f8"@);
        },
        Key::F9 => {
            reveal_strlit("F9");
            assert(name.len() == 2 && name[0] == 'F' && name[1] == '9');
            assert(small =~= "f9"@);
        },
        Key::F10 => {
            reveal_strlit("F10");
            assert(name.len() == 3 && name[0] == 'F' && name[1] == '1' && name[2] == '0');
            assert(small =~= "f10"@);
        },
        Key::F11 => {
            reveal_strlit("F11");
            assert(name.len() == 3 && name[0] == 'F' && name[1] == '1' && name[2] == '1');
            assert(small =~= "f11"@);
        },
        Key::F12 => {
            reveal_strlit("F12");
            assert(name.len() == 3 && name[0] == 'F' && name[1] == '1' && name[2] == '2');
            assert(small =~= "f12"@);
        },
        _ => {},
    }
}

#[verifier::spinoff_prover]
proof fn lemma_letter_names(key: Key)
    requires
        key == Key::A || key == Key::B || key == Key::C || key == Key::D || key == Key::E || key == Key::F || key == Key::G || key == Key::H || key == Key::I || key == Key::J || key == Key::K || key == Key::L || key == Key::M || key == Key::N || key == Key::O || key == Key::P || key == Key::Q || key == Key::R || key == Key::S || key == Key::T || key == Key::U || key == Key::V || key == Key::W || key == Key::X || key == Key::Y || key == Key::Z,
    ensures
        key_name(key) matches Some(name) && all_ascii(name) && named_key(in_small_letters(name))
            == Some(key),
{
    lemma_small_spellings();
    let name = key_name(key)->0;
    let small = in_small_letters(name);
    match key {
        Key::A => {
            reveal_strlit("A");
            assert(name.len() == 1 && name[0] == 'A');
            assert(small =~= "a"@);
        },
        Key::B => {
            reveal_strlit("B");
            assert(name.len() == 1 && name[0] == 'B');
            assert(small =~= "b"@);
        },
        Key::C => {
            reveal_strlit("C");
            assert(name.len() == 1 && name[0] == 'C');
            assert(small =~= "c"@);
        },
        Key::D => {
            reveal_strlit("D");
            assert(name.len() == 1 && name[0] == 'D');
            assert(small =~= "d"@);
        },
        Key::E => {
            reveal_strlit("E");
            assert(name.len() == 1 && name[0] == 'E');
            assert(small =~= "e"@);
        },
        Key::F => {
            reveal_strlit("F");
            assert(name.len() == 1 && name[0] == 'F');
            assert(small =~= "f"@);
        },
        Key::G => {
            reveal_strlit("G");
            assert(name.len() == 1 && name[0] == 'G');
            assert(small =~= "g"@);
        },
        Key::H => {
            reveal_strlit("H");
            assert(name.len() == 1 && name[0] == 'H');
            assert(small =~= "h"@);
        },
        Key::I => {
            reveal_strlit("I");
            assert(name.len() == 1 && name[0] == 'I');
            assert(small =~= "i"@);
        },
        Key::J => {
            reveal_strlit("J");
            assert(name.len() == 1 && name[0] == 'J');
            assert(small =~= "j"@);
        },
        Key::K => {
            reveal_strlit("K");
            assert(name.len() == 1 && name[0] == 'K');
            assert(small =~= "k"@);
        },
        Key::L => {
            reveal_strlit("L");
            assert(name.len() == 1 && name[0] == 'L');
            assert(small =~= "l"@);
        },
        Key::M => {
            reveal_strlit("M");
            assert(name.len() == 1 && name[0] == 'M');
            assert(small =~= "m"@);
        },
        Key::N => {
            reveal_strlit("N");
            assert(name.len() == 1 && name[0] == 'N');
            assert(small =~= "n"@);
        },
        Key::O => {
            reveal_strlit("O");
            assert(name.len() == 1 && name[0] == 'O');
            assert(small =~= "o"@);
        },
        Key::P => {
            reveal_strlit("P");
            assert(name.len() == 1 && name[0] == 'P');
            assert(small =~= "p"@);
        },
        Key::Q => {
            reveal_strlit("Q");
            assert(name.len() == 1 && name[0] == 'Q');
            assert(small =~= "q"@);
        },
        Key::R => {
            reveal_strlit("R");
            assert(name.len() == 1 && name[0] == 'R');
            assert(small =~= "r"@);
        },
        Key::S => {
            reveal_strlit("S");
            assert(name.len() == 1 && name[0] == 'S');
            assert(small =~= "s"@);
        },
        Key::T => {
            reveal_strlit("T");
            assert(name.len() == 1 && name[0] == 'T');
            assert(small =~= "t"@);
        },
        Key::U => {
            reveal_strlit("U");
            assert(name.len() == 1 && name[0] == 'U');
            assert(small =~= "u"@);
        },
        Key::V => {
            reveal_strlit("V");
            assert(name.len() == 1 && name[0] == 'V');
            assert(small =~= "v"@);
        },
        Key::W => {
            reveal_strlit("W");
            assert(name.len() == 1 && name[0] == 'W');
            assert(small =~= "w"@);
        },
        Key::X => {
            reveal_strlit("X");
            assert(name.len() == 1 && name[0] == 'X');
            assert(small =~= "x"@);
        },
        Key::Y => {
            reveal_strlit("Y");
            assert(name.len() == 1 && name[0] == 'Y');
            assert(small =~= "y"@);
        },
        Key::Z => {
            reveal_strlit("Z");
            assert(name.len() == 1 && name[0] == 'Z');
            assert(small =~= "z"@);
        },
        _ => {},
    }
}

#[verifier::spinoff_prover]
proof fn lemma_digit_names(key: Key)
    requires
        key == Key::Num0 || key == Key::Num1 || key == Key::Num2 || key == Key::Num3 || key == Key::Num4 || key == Key::Num5 || key == Key::Num6 || key == Key::Num7 || key == Key::Num8 || key == Key::Num9,
    ensures
        key_name(key) matches Some(name) && all_ascii(name) && named_key(in_small_letters(name))
            == Some(key),
{
    lemma_small_spellings();
    let name = key_name(key)->0;
    let small = in_small_letters(name);
    match key {
        Key::Num0 => {
            reveal_strlit("0");
            assert(name.len() == 1 && name[0] == '0');
            assert(small =~= "0"@);
        },
        Key::Num1 => {
            reveal_strlit("1");
            assert(name.len() == 1 && name[0] == '1');
            assert(small =~= "1"@);
        },
        Key::Num2 => {
            reveal_strlit("2");
            assert(name.len() == 1 && name[0] == '2');
            assert(small =~= "2"@);
        },
        Key::Num3 => {
            reveal_strlit("3");
            assert(name.len() == 1 && name[0] == '3');
            assert(small =~= "3"@);
        },
        Key::Num4 => {
            reveal_strlit("4");
            assert(name.len() == 1 && name[0] == '4');
            assert(small =~= "4"@);
        },
        Key::Num5 => {
            reveal_strlit("5");
            assert(name.len() == 1 && name[0] == '5');
            assert(small =~= "5"@);
        },
        Key::Num6 => {
            reveal_strlit("6");
            assert(name.len() == 1 && name[0] == '6');
            assert(small =~= "6"@);
        },
        Key::Num7 => {
            reveal_strlit("7");
            assert(name.len() == 1 && name[0] == '7');
            assert(small =~= "7"@);
        },
        Key::Num8 => {
            reveal_strlit("8");
            assert(name.len() == 1 && name[0] == '8');
            assert(small =~= "8"@);
        },
        Key::Num9 => {
            reveal_strlit("9");
            assert(name.len() == 1 && name[0] == '9');
            assert(small =~= "9"@);
        },
        _ => {},
    }
}

#[verifier::spinoff_prover]
proof fn lemma_sign_names(key: Key)
    requires
        key == Key::Minus || key == Key::Equals || key == Key::OpenBracket || key == Key::CloseBracket || key == Key::Backslash || key == Key::Semicolon || key == Key::Quote || key == Key::Backtick || key == Key::Comma || key == Key::Period || key == Key::Slash,
    ensures
        key_name(key) matches Some(name) && all_ascii(name) && named_key(in_small_letters(name))
            == Some(key),
{
    lemma_small_spellings();
    let name = key_name(key)->0;
    let small = in_small_letters(name);
    match key {
        Key::Minus => {
            reveal_strlit("Minus");
            assert(name.len() == 5 && name[0] == 'M' && name[1] == 'i' && name[2] == 'n' && name[3] == 'u' && name[4] == 's');
            assert(small =~= "minus"@);
        },
        Key::Equals => {
            reveal_strlit("Equal");
            assert(name.len() == 5 && name[0] == 'E' && name[1] == 'q' && name[2] == 'u' && name[3] == 'a' && name[4] == 'l');
            assert(small =~= "equal"@);
        },
        Key::OpenBracket => {
            reveal_strlit("BracketLeft");
            assert(name.len() == 11 && name[0] == 'B' && name[1] == 'r' && name[2] == 'a' && name[3] == 'c' && name[4] == 'k' && name[5] == 'e' && name[6] == 't' && name[7] == 'L' && name[8] == 'e' && name[9] == 'f' && name[10] == 't');
            assert(small =~= "bracketleft"@);
        },
        Key::CloseBracket => {
            reveal_strlit("BracketRight");
            assert(name.len() == 12 && name[0] == 'B' && name[1] == 'r' && name[2] == 'a' && name[3] == 'c' && name[4] == 'k' && name[5] == 'e' && name[6] == 't' && name[7] == 'R' && name[8] == 'i' && name[9] == 'g' && name[10] == 'h' && name[11] == 't');
            assert(small =~= "bracketright"@);
        },
        Key::Backslash => {
            reveal_strlit("Backslash");
            assert(name.len() == 9 && name[0] == 'B' && name[1] == 'a' && name[2] == 'c' && name[3] == 'k' && name[4] == 's' && name[5] == 'l' && name[6] == 'a' && name[7] == 's' && name[8] == 'h');
            assert(small =~= "backslash"@);
        },
        Key::Semicolon => {
            reveal_strlit("Semicolon");
            assert(name.len() == 9 && name[0] == 'S' && name[1] == 'e' && name[2] == 'm' && name[3] == 'i' && name[4] == 'c' && name[5] == 'o' && name[6] == 'l' && name[7] == 'o' && name[8] == 'n');
            assert(small =~= "semicolon"@);
        },
        Key::Quote => {
            reveal_strlit("Quote");
            assert(name.len() == 5 && name[0] == 'Q' && name[1] == 'u' && name[2] == 'o' && name[3] == 't' && name[4] == 'e');
            assert(small =~= "quote"@);
        },
        Key::Backtick => {
            reveal_strlit("Backquote");
            assert(name.len() == 9 && name[0] == 'B' && name[1] == 'a' && name[2] == 'c' && name[3] == 'k' && name[4] == 'q' && name[5] == 'u' && name[6] == 'o' && name[7] == 't' && name[8] == 'e');
            assert(small =~= "backquote"@);
        },
        Key::Comma => {
            reveal_strlit("Comma");
            assert(name.len() == 5 && name[0] == 'C' && name[1] == 'o' && name[2] == 'm' && name[3] == 'm' && name[4] == 'a');
            assert(small =~= "comma"@);
        },
        Key::Period => {
            reveal_strlit("Period");
            assert(name.len() == 6 && name[0] == 'P' && name[1] == 'e' && name[2] == 'r' && name[3] == 'i' && name[4] == 'o' && name[5] == 'd');
            assert(small =~= "period"@);
        },
        Key::Slash => {
            reveal_strlit("Slash");
            assert(name.len() == 5 && name[0] == 'S' && name[1] == 'l' && name[2] == 'a' && name[3] == 's' && name[4] == 'h');
            assert(small =~= "slash"@);
        },
        _ => {},
    }
}

/// The name of every key that can be bound stands for that key, and for the
/// system's code of it.
pub proof fn key_names_are_read_back(key: Key)
    requires
        key != Key::Other,
    ensures
        key_name(key) matches Some(name) && named_key(lowercase(name)) == Some(key) && named_code(
            lowercase(name),
        ) == key_code(key),
{
    match key {
        Key::Space | Key::Enter | Key::Tab | Key::Backspace | Key::Escape | Key::Insert | Key::Delete | Key::Home | Key::End | Key::PageUp | Key::PageDown | Key::ArrowUp | Key::ArrowDown | Key::ArrowLeft | Key::ArrowRight => lemma_special_names(key),
        Key::F1 | Key::F2 | Key::F3 | Key::F4 | Key::F5 | Key::F6 | Key::F7 | Key::F8 | Key::F9 | Key::F10 | Key::F11 | Key::F12 => lemma_function_names(key),
        Key::A | Key::B | Key::C | Key::D | Key::E | Key::F | Key::G | Key::H | Key::I | Key::J | Key::K | Key::L | Key::M | Key::N | Key::O | Key::P | Key::Q | Key::R | Key::S | Key::T | Key::U | Key::V | Key::W | Key::X | Key::Y | Key::Z => lemma_letter_names(key),
        Key::Num0 | Key::Num1 | Key::Num2 | Key::Num3 | Key::Num4 | Key::Num5 | Key::Num6 | Key::Num7 | Key::Num8 | Key::Num9 => lemma_digit_names(key),
        Key::Minus | Key::Equals | Key::OpenBracket | Key::CloseBracket | Key::Backslash | Key::Semicolon | Key::Quote | Key::Backtick | Key::Comma | Key::Period | Key::Slash => lemma_sign_names(key),
        Key::Other => {},
    }
}

/// Every name that stands for a key of the window stands for a code of the system.
pub proof fn window_keys_are_system_keys(name: Seq<char>)
    ensures
        named_key(name) is Some ==> named_code(name) is Some,
{
}

} // verus!
