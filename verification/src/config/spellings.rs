//! Both spellings of a flag give the same argument: the laws for the flags
//! that set a singular field of the configuration.

use crate::command::{classify, CommandView, Form};
use crate::config::arguments::ArgumentView;
use crate::config::parser::parse_token;
use crate::config::types::{GemonMethodType, GemonType};
use vstd::prelude::*;

verus! {

/// A token made of the short URI flag and a value is the URI argument with
/// that value.
pub proof fn lemma_uri_short(value: Seq<char>)
    ensures
        classify("-u="@ + value) == CommandView::Uri("-u="@ + value, Form::Short),
        parse_token("-u="@ + value) == Some(ArgumentView::Uri(value)),
{
    reveal_strlit("-h");
    reveal_strlit("--help");
    reveal_strlit("-v");
    reveal_strlit("--version");
    reveal_strlit("init");
    reveal_strlit("print-env-all");
    reveal_strlit("print-env");
    reveal_strlit("print");
    reveal_strlit("-t=REST");
    reveal_strlit("--type=REST");
    reveal_strlit("-t=WEBSOCKET");
    reveal_strlit("--type=WEBSOCKET");
    reveal_strlit("-t=PROTO");
    reveal_strlit("--type=PROTO");
    reveal_strlit("-m=GET");
    reveal_strlit("--method=GET");
    reveal_strlit("-m=POST");
    reveal_strlit("--method=POST");
    reveal_strlit("-m=DELETE");
    reveal_strlit("--method=DELETE");
    reveal_strlit("-m=PUT");
    reveal_strlit("--method=PUT");
    reveal_strlit("-m=PATCH");
    reveal_strlit("--method=PATCH");
    reveal_strlit("-f");
    reveal_strlit("--file");
    reveal_strlit("-l");
    reveal_strlit("--log");
    reveal_strlit("-p");
    reveal_strlit("--print");
    reveal_strlit("-sec");
    reveal_strlit("--secure");
    reveal_strlit("-r-auth");
    reveal_strlit("--remove-authorization");
    reveal_strlit("-auth=");
    reveal_strlit("--authorization=");
    reveal_strlit("-u=");
    let t = "-u="@ + value;
    assert(forall|i: int| 0 <= i < "-u="@.len() ==> t[i] == "-u="@[i]);
    assert(t.subrange(0, "-u="@.len() as int) =~= "-u="@);
    assert(t.skip("-u="@.len() as int) =~= value);
    assert(t != "-h"@) by {
        assert("-h"@[1] == 'h' && t[1] == 'u');
    }
    assert(t != "--help"@) by {
        assert("--help"@[1] == '-' && t[1] == 'u');
    }
    assert(t != "-v"@) by {
        assert("-v"@[1] == 'v' && t[1] == 'u');
    }
    assert(t != "--version"@) by {
        assert("--version"@[1] == '-' && t[1] == 'u');
    }
    assert(t != "init"@) by {
        assert("init"@[0] == 'i' && t[0] == '-');
    }
    assert(t != "print-env-all"@) by {
        assert("print-env-all"@[0] == 'p' && t[0] == '-');
    }
    assert(t != "print-env"@) by {
        assert("print-env"@[0] == 'p' && t[0] == '-');
    }
    assert(t != "print"@) by {
        assert("print"@[0] == 'p' && t[0] == '-');
    }
    assert(t != "-t=REST"@) by {
        assert("-t=REST"@[1] == 't' && t[1] == 'u');
    }
    assert(t != "--type=REST"@) by {
        assert("--type=REST"@[1] == '-' && t[1] == 'u');
    }
    assert(t != "-t=WEBSOCKET"@) by {
        assert("-t=WEBSOCKET"@[1] == 't' && t[1] == 'u');
    }
    assert(t != "--type=WEBSOCKET"@) by {
        assert("--type=WEBSOCKET"@[1] == '-' && t[1] == 'u');
    }
    assert(t != "-t=PROTO"@) by {
        assert("-t=PROTO"@[1] == 't' && t[1] == 'u');
    }
    assert(t != "--type=PROTO"@) by {
        assert("--type=PROTO"@[1] == '-' && t[1] == 'u');
    }
    assert(t != "-m=GET"@) by {
        assert("-m=GET"@[1] == 'm' && t[1] == 'u');
    }
    assert(t != "--method=GET"@) by {
        assert("--method=GET"@[1] == '-' && t[1] == 'u');
    }
    assert(t != "-m=POST"@) by {
        assert("-m=POST"@[1] == 'm' && t[1] == 'u');
    }
    assert(t != "--method=POST"@) by {
        assert("--method=POST"@[1] == '-' && t[1] == 'u');
    }
    assert(t != "-m=DELETE"@) by {
        assert("-m=DELETE"@[1] == 'm' && t[1] == 'u');
    }
    assert(t != "--method=DELETE"@) by {
        assert("--method=DELETE"@[1] == '-' && t[1] == 'u');
    }
    assert(t != "-m=PUT"@) by {
        assert("-m=PUT"@[1] == 'm' && t[1] == 'u');
    }
    assert(t != "--method=PUT"@) by {
        assert("--method=PUT"@[1] == '-' && t[1] == 'u');
    }
    assert(t != "-m=PATCH"@) by {
        assert("-m=PATCH"@[1] == 'm' && t[1] == 'u');
    }
    assert(t != "--method=PATCH"@) by {
        assert("--method=PATCH"@[1] == '-' && t[1] == 'u');
    }
    assert(t != "-f"@) by {
        assert("-f"@[1] == 'f' && t[1] == 'u');
    }
    assert(t != "--file"@) by {
        assert("--file"@[1] == '-' && t[1] == 'u');
    }
    assert(t != "-l"@) by {
        assert("-l"@[1] == 'l' && t[1] == 'u');
    }
    assert(t != "--log"@) by {
        assert("--log"@[1] == '-' && t[1] == 'u');
    }
    assert(t != "-p"@) by {
        assert("-p"@[1] == 'p' && t[1] == 'u');
    }
    assert(t != "--print"@) by {
        assert("--print"@[1] == '-' && t[1] == 'u');
    }
    assert(t != "-sec"@) by {
        assert("-sec"@[1] == 's' && t[1] == 'u');
    }
    assert(t != "--secure"@) by {
        assert("--secure"@[1] == '-' && t[1] == 'u');
    }
    assert(t != "-r-auth"@) by {
        assert("-r-auth"@[1] == 'r' && t[1] == 'u');
    }
    assert(t != "--remove-authorization"@) by {
        assert("--remove-authorization"@[1] == '-' && t[1] == 'u');
    }
    assert(!"-auth="@.is_prefix_of(t)) by {
        assert("-auth="@[1] == 'a' && t[1] == 'u');
        if "-auth="@.len() <= t.len() {
            assert(t.subrange(0, "-auth="@.len() as int)[1] == t[1]);
        }
    }
    assert(!"--authorization="@.is_prefix_of(t)) by {
        assert("--authorization="@[1] == '-' && t[1] == 'u');
        if "--authorization="@.len() <= t.len() {
            assert(t.subrange(0, "--authorization="@.len() as int)[1] == t[1]);
        }
    }
}

/// A token made of the long URI flag and a value is the URI argument with
/// that value: the spelling of the flag does not show in the argument.
pub proof fn lemma_uri_long(value: Seq<char>)
    ensures
        classify("--uri="@ + value) == CommandView::Uri("--uri="@ + value, Form::Long),
        parse_token("--uri="@ + value) == Some(ArgumentView::Uri(value)),
{
    reveal_strlit("-h");
    reveal_strlit("--help");
    reveal_strlit("-v");
    reveal_strlit("--version");
    reveal_strlit("init");
    reveal_strlit("print-env-all");
    reveal_strlit("print-env");
    reveal_strlit("print");
    reveal_strlit("-t=REST");
    reveal_strlit("--type=REST");
    reveal_strlit("-t=WEBSOCKET");
    reveal_strlit("--type=WEBSOCKET");
    reveal_strlit("-t=PROTO");
    reveal_strlit("--type=PROTO");
    reveal_strlit("-m=GET");
    reveal_strlit("--method=GET");
    reveal_strlit("-m=POST");
    reveal_strlit("--method=POST");
    reveal_strlit("-m=DELETE");
    reveal_strlit("--method=DELETE");
    reveal_strlit("-m=PUT");
    reveal_strlit("--method=PUT");
    reveal_strlit("-m=PATCH");
    reveal_strlit("--method=PATCH");
    reveal_strlit("-f");
    reveal_strlit("--file");
    reveal_strlit("-l");
    reveal_strlit("--log");
    reveal_strlit("-p");
    reveal_strlit("--print");
    reveal_strlit("-sec");
    reveal_strlit("--secure");
    reveal_strlit("-r-auth");
    reveal_strlit("--remove-authorization");
    reveal_strlit("-auth=");
    reveal_strlit("--authorization=");
    reveal_strlit("-u=");
    reveal_strlit("--uri=");
    let t = "--uri="@ + value;
    assert(forall|i: int| 0 <= i < "--uri="@.len() ==> t[i] == "--uri="@[i]);
    assert(t.subrange(0, "--uri="@.len() as int) =~= "--uri="@);
    assert(t.skip("--uri="@.len() as int) =~= value);
    assert(t != "-h"@) by {
        assert("-h"@[1] == 'h' && t[1] == '-');
    }
    assert(t != "--help"@) by {
        assert("--help"@[2] == 'h' && t[2] == 'u');
    }
    assert(t != "-v"@) by {
        assert("-v"@[1] == 'v' && t[1] == '-');
    }
    assert(t != "--version"@) by {
        assert("--version"@[2] == 'v' && t[2] == 'u');
    }
    assert(t != "init"@) by {
        assert("init"@[0] == 'i' && t[0] == '-');
    }
    assert(t != "print-env-all"@) by {
        assert("print-env-all"@[0] == 'p' && t[0] == '-');
    }
    assert(t != "print-env"@) by {
        assert("print-env"@[0] == 'p' && t[0] == '-');
    }
    assert(t != "print"@) by {
        assert("print"@[0] == 'p' && t[0] == '-');
    }
    assert(t != "-t=REST"@) by {
        assert("-t=REST"@[1] == 't' && t[1] == '-');
    }
    assert(t != "--type=REST"@) by {
        assert("--type=REST"@[2] == 't' && t[2] == 'u');
    }
    assert(t != "-t=WEBSOCKET"@) by {
        assert("-t=WEBSOCKET"@[1] == 't' && t[1] == '-');
    }
    assert(t != "--type=WEBSOCKET"@) by {
        assert("--type=WEBSOCKET"@[2] == 't' && t[2] == 'u');
    }
    assert(t != "-t=PROTO"@) by {
        assert("-t=PROTO"@[1] == 't' && t[1] == '-');
    }
    assert(t != "--type=PROTO"@) by {
        assert("--type=PROTO"@[2] == 't' && t[2] == 'u');
    }
    assert(t != "-m=GET"@) by {
        assert("-m=GET"@[1] == 'm' && t[1] == '-');
    }
    assert(t != "--method=GET"@) by {
        assert("--method=GET"@[2] == 'm' && t[2] == 'u');
    }
    assert(t != "-m=POST"@) by {
        assert("-m=POST"@[1] == 'm' && t[1] == '-');
    }
    assert(t != "--method=POST"@) by {
        assert("--method=POST"@[2] == 'm' && t[2] == 'u');
    }
    assert(t != "-m=DELETE"@) by {
        assert("-m=DELETE"@[1] == 'm' && t[1] == '-');
    }
    assert(t != "--method=DELETE"@) by {
        assert("--method=DELETE"@[2] == 'm' && t[2] == 'u');
    }
    assert(t != "-m=PUT"@) by {
        assert("-m=PUT"@[1] == 'm' && t[1] == '-');
    }
    assert(t != "--method=PUT"@) by {
        assert("--method=PUT"@[2] == 'm' && t[2] == 'u');
    }
    assert(t != "-m=PATCH"@) by {
        assert("-m=PATCH"@[1] == 'm' && t[1] == '-');
    }
    assert(t != "--method=PATCH"@) by {
        assert("--method=PATCH"@[2] == 'm' && t[2] == 'u');
    }
    assert(t != "-f"@) by {
        assert("-f"@[1] == 'f' && t[1] == '-');
    }
    assert(t != "--file"@) by {
        assert("--file"@[2] == 'f' && t[2] == 'u');
    }
    assert(t != "-l"@) by {
        assert("-l"@[1] == 'l' && t[1] == '-');
    }
    assert(t != "--log"@) by {
        assert("--log"@[2] == 'l' && t[2] == 'u');
    }
    assert(t != "-p"@) by {
        assert("-p"@[1] == 'p' && t[1] == '-');
    }
    assert(t != "--print"@) by {
        assert("--print"@[2] == 'p' && t[2] == 'u');
    }
    assert(t != "-sec"@) by {
        assert("-sec"@[1] == 's' && t[1] == '-');
    }
    assert(t != "--secure"@) by {
        assert("--secure"@[2] == 's' && t[2] == 'u');
    }
    assert(t != "-r-auth"@) by {
        assert("-r-auth"@[1] == 'r' && t[1] == '-');
    }
    assert(t != "--remove-authorization"@) by {
        assert("--remove-authorization"@[2] == 'r' && t[2] == 'u');
    }
    assert(!"-auth="@.is_prefix_of(t)) by {
        assert("-auth="@[1] == 'a' && t[1] == '-');
        if "-auth="@.len() <= t.len() {
            assert(t.subrange(0, "-auth="@.len() as int)[1] == t[1]);
        }
    }
    assert(!"--authorization="@.is_prefix_of(t)) by {
        assert("--authorization="@[2] == 'a' && t[2] == 'u');
        if "--authorization="@.len() <= t.len() {
            assert(t.subrange(0, "--authorization="@.len() as int)[2] == t[2]);
        }
    }
    assert(!"-u="@.is_prefix_of(t)) by {
        assert("-u="@[1] == 'u' && t[1] == '-');
        if "-u="@.len() <= t.len() {
            assert(t.subrange(0, "-u="@.len() as int)[1] == t[1]);
        }
    }
}

/// A token made of the short body flag and a value is the body argument
/// with that value.
pub proof fn lemma_body_short(value: Seq<char>)
    ensures
        classify("-b="@ + value) == CommandView::Body("-b="@ + value, Form::Short),
        parse_token("-b="@ + value) == Some(ArgumentView::Body(value)),
{
    reveal_strlit("-h");
    reveal_strlit("--help");
    reveal_strlit("-v");
    reveal_strlit("--version");
    reveal_strlit("init");
    reveal_strlit("print-env-all");
    reveal_strlit("print-env");
    reveal_strlit("print");
    reveal_strlit("-t=REST");
    reveal_strlit("--type=REST");
    reveal_strlit("-t=WEBSOCKET");
    reveal_strlit("--type=WEBSOCKET");
    reveal_strlit("-t=PROTO");
    reveal_strlit("--type=PROTO");
    reveal_strlit("-m=GET");
    reveal_strlit("--method=GET");
    reveal_strlit("-m=POST");
    reveal_strlit("--method=POST");
    reveal_strlit("-m=DELETE");
    reveal_strlit("--method=DELETE");
    reveal_strlit("-m=PUT");
    reveal_strlit("--method=PUT");
    reveal_strlit("-m=PATCH");
    reveal_strlit("--method=PATCH");
    reveal_strlit("-f");
    reveal_strlit("--file");
    reveal_strlit("-l");
    reveal_strlit("--log");
    reveal_strlit("-p");
    reveal_strlit("--print");
    reveal_strlit("-sec");
    reveal_strlit("--secure");
    reveal_strlit("-r-auth");
    reveal_strlit("--remove-authorization");
    reveal_strlit("-auth=");
    reveal_strlit("--authorization=");
    reveal_strlit("-u=");
    reveal_strlit("--uri=");
    reveal_strlit("-h=");
    reveal_strlit("--header=");
    reveal_strlit("-b=");
    let t = "-b="@ + value;
    assert(forall|i: int| 0 <= i < "-b="@.len() ==> t[i] == "-b="@[i]);
    assert(t.subrange(0, "-b="@.len() as int) =~= "-b="@);
    assert(t.skip("-b="@.len() as int) =~= value);
    assert(t != "-h"@) by {
        assert("-h"@[1] == 'h' && t[1] == 'b');
    }
    assert(t != "--help"@) by {
        assert("--help"@[1] == '-' && t[1] == 'b');
    }
    assert(t != "-v"@) by {
        assert("-v"@[1] == 'v' && t[1] == 'b');
    }
    assert(t != "--version"@) by {
        assert("--version"@[1] == '-' && t[1] == 'b');
    }
    assert(t != "init"@) by {
        assert("init"@[0] == 'i' && t[0] == '-');
    }
    assert(t != "print-env-all"@) by {
        assert("print-env-all"@[0] == 'p' && t[0] == '-');
    }
    assert(t != "print-env"@) by {
        assert("print-env"@[0] == 'p' && t[0] == '-');
    }
    assert(t != "print"@) by {
        assert("print"@[0] == 'p' && t[0] == '-');
    }
    assert(t != "-t=REST"@) by {
        assert("-t=REST"@[1] == 't' && t[1] == 'b');
    }
    assert(t != "--type=REST"@) by {
        assert("--type=REST"@[1] == '-' && t[1] == 'b');
    }
    assert(t != "-t=WEBSOCKET"@) by {
        assert("-t=WEBSOCKET"@[1] == 't' && t[1] == 'b');
    }
    assert(t != "--type=WEBSOCKET"@) by {
        assert("--type=WEBSOCKET"@[1] == '-' && t[1] == 'b');
    }
    assert(t != "-t=PROTO"@) by {
        assert("-t=PROTO"@[1] == 't' && t[1] == 'b');
    }
    assert(t != "--type=PROTO"@) by {
        assert("--type=PROTO"@[1] == '-' && t[1] == 'b');
    }
    assert(t != "-m=GET"@) by {
        assert("-m=GET"@[1] == 'm' && t[1] == 'b');
    }
    assert(t != "--method=GET"@) by {
        assert("--method=GET"@[1] == '-' && t[1] == 'b');
    }
    assert(t != "-m=POST"@) by {
        assert("-m=POST"@[1] == 'm' && t[1] == 'b');
    }
    assert(t != "--method=POST"@) by {
        assert("--method=POST"@[1] == '-' && t[1] == 'b');
    }
    assert(t != "-m=DELETE"@) by {
        assert("-m=DELETE"@[1] == 'm' && t[1] == 'b');
    }
    assert(t != "--method=DELETE"@) by {
        assert("--method=DELETE"@[1] == '-' && t[1] == 'b');
    }
    assert(t != "-m=PUT"@) by {
        assert("-m=PUT"@[1] == 'm' && t[1] == 'b');
    }
    assert(t != "--method=PUT"@) by {
        assert("--method=PUT"@[1] == '-' && t[1] == 'b');
    }
    assert(t != "-m=PATCH"@) by {
        assert("-m=PATCH"@[1] == 'm' && t[1] == 'b');
    }
    assert(t != "--method=PATCH"@) by {
        assert("--method=PATCH"@[1] == '-' && t[1] == 'b');
    }
    assert(t != "-f"@) by {
        assert("-f"@[1] == 'f' && t[1] == 'b');
    }
    assert(t != "--file"@) by {
        assert("--file"@[1] == '-' && t[1] == 'b');
    }
    assert(t != "-l"@) by {
        assert("-l"@[1] == 'l' && t[1] == 'b');
    }
    assert(t != "--log"@) by {
        assert("--log"@[1] == '-' && t[1] == 'b');
    }
    assert(t != "-p"@) by {
        assert("-p"@[1] == 'p' && t[1] == 'b');
    }
    assert(t != "--print"@) by {
        assert("--print"@[1] == '-' && t[1] == 'b');
    }
    assert(t != "-sec"@) by {
        assert("-sec"@[1] == 's' && t[1] == 'b');
    }
    assert(t != "--secure"@) by {
        assert("--secure"@[1] == '-' && t[1] == 'b');
    }
    assert(t != "-r-auth"@) by {
        assert("-r-auth"@[1] == 'r' && t[1] == 'b');
    }
    assert(t != "--remove-authorization"@) by {
        assert("--remove-authorization"@[1] == '-' && t[1] == 'b');
    }
    assert(!"-auth="@.is_prefix_of(t)) by {
        assert("-auth="@[1] == 'a' && t[1] == 'b');
        if "-auth="@.len() <= t.len() {
            assert(t.subrange(0, "-auth="@.len() as int)[1] == t[1]);
        }
    }
    assert(!"--authorization="@.is_prefix_of(t)) by {
        assert("--authorization="@[1] == '-' && t[1] == 'b');
        if "--authorization="@.len() <= t.len() {
            assert(t.subrange(0, "--authorization="@.len() as int)[1] == t[1]);
        }
    }
    assert(!"-u="@.is_prefix_of(t)) by {
        assert("-u="@[1] == 'u' && t[1] == 'b');
        if "-u="@.len() <= t.len() {
            assert(t.subrange(0, "-u="@.len() as int)[1] == t[1]);
        }
    }
    assert(!"--uri="@.is_prefix_of(t)) by {
        assert("--uri="@[1] == '-' && t[1] == 'b');
        if "--uri="@.len() <= t.len() {
            assert(t.subrange(0, "--uri="@.len() as int)[1] == t[1]);
        }
    }
    assert(!"-h="@.is_prefix_of(t)) by {
        assert("-h="@[1] == 'h' && t[1] == 'b');
        if "-h="@.len() <= t.len() {
            assert(t.subrange(0, "-h="@.len() as int)[1] == t[1]);
        }
    }
    assert(!"--header="@.is_prefix_of(t)) by {
        assert("--header="@[1] == '-' && t[1] == 'b');
        if "--header="@.len() <= t.len() {
            assert(t.subrange(0, "--header="@.len() as int)[1] == t[1]);
        }
    }
}

/// A token made of the long body flag and a value is the body argument with
/// that value: the spelling of the flag does not show in the argument.
pub proof fn lemma_body_long(value: Seq<char>)
    ensures
        classify("--body="@ + value) == CommandView::Body("--body="@ + value, Form::Long),
        parse_token("--body="@ + value) == Some(ArgumentView::Body(value)),
{
    reveal_strlit("-h");
    reveal_strlit("--help");
    reveal_strlit("-v");
    reveal_strlit("--version");
    reveal_strlit("init");
    reveal_strlit("print-env-all");
    reveal_strlit("print-env");
    reveal_strlit("print");
    reveal_strlit("-t=REST");
    reveal_strlit("--type=REST");
    reveal_strlit("-t=WEBSOCKET");
    reveal_strlit("--type=WEBSOCKET");
    reveal_strlit("-t=PROTO");
    reveal_strlit("--type=PROTO");
    reveal_strlit("-m=GET");
    reveal_strlit("--method=GET");
    reveal_strlit("-m=POST");
    reveal_strlit("--method=POST");
    reveal_strlit("-m=DELETE");
    reveal_strlit("--method=DELETE");
    reveal_strlit("-m=PUT");
    reveal_strlit("--method=PUT");
    reveal_strlit("-m=PATCH");
    reveal_strlit("--method=PATCH");
    reveal_strlit("-f");
    reveal_strlit("--file");
    reveal_strlit("-l");
    reveal_strlit("--log");
    reveal_strlit("-p");
    reveal_strlit("--print");
    reveal_strlit("-sec");
    reveal_strlit("--secure");
    reveal_strlit("-r-auth");
    reveal_strlit("--remove-authorization");
    reveal_strlit("-auth=");
    reveal_strlit("--authorization=");
    reveal_strlit("-u=");
    reveal_strlit("--uri=");
    reveal_strlit("-h=");
    reveal_strlit("--header=");
    reveal_strlit("-b=");
    reveal_strlit("--body=");
    let t = "--body="@ + value;
    assert(forall|i: int| 0 <= i < "--body="@.len() ==> t[i] == "--body="@[i]);
    assert(t.subrange(0, "--body="@.len() as int) =~= "--body="@);
    assert(t.skip("--body="@.len() as int) =~= value);
    assert(t != "-h"@) by {
        assert("-h"@[1] == 'h' && t[1] == '-');
    }
    assert(t != "--help"@) by {
        assert("--help"@[2] == 'h' && t[2] == 'b');
    }
    assert(t != "-v"@) by {
        assert("-v"@[1] == 'v' && t[1] == '-');
    }
    assert(t != "--version"@) by {
        assert("--version"@[2] == 'v' && t[2] == 'b');
    }
    assert(t != "init"@) by {
        assert("init"@[0] == 'i' && t[0] == '-');
    }
    assert(t != "print-env-all"@) by {
        assert("print-env-all"@[0] == 'p' && t[0] == '-');
    }
    assert(t != "print-env"@) by {
        assert("print-env"@[0] == 'p' && t[0] == '-');
    }
    assert(t != "print"@) by {
        assert("print"@[0] == 'p' && t[0] == '-');
    }
    assert(t != "-t=REST"@) by {
        assert("-t=REST"@[1] == 't' && t[1] == '-');
    }
    assert(t != "--type=REST"@) by {
        assert("--type=REST"@[2] == 't' && t[2] == 'b');
    }
    assert(t != "-t=WEBSOCKET"@) by {
        assert("-t=WEBSOCKET"@[1] == 't' && t[1] == '-');
    }
    assert(t != "--type=WEBSOCKET"@) by {
        assert("--type=WEBSOCKET"@[2] == 't' && t[2] == 'b');
    }
    assert(t != "-t=PROTO"@) by {
        assert("-t=PROTO"@[1] == 't' && t[1] == '-');
    }
    assert(t != "--type=PROTO"@) by {
        assert("--type=PROTO"@[2] == 't' && t[2] == 'b');
    }
    assert(t != "-m=GET"@) by {
        assert("-m=GET"@[1] == 'm' && t[1] == '-');
    }
    assert(t != "--method=GET"@) by {
        assert("--method=GET"@[2] == 'm' && t[2] == 'b');
    }
    assert(t != "-m=POST"@) by {
        assert("-m=POST"@[1] == 'm' && t[1] == '-');
    }
    assert(t != "--method=POST"@) by {
        assert("--method=POST"@[2] == 'm' && t[2] == 'b');
    }
    assert(t != "-m=DELETE"@) by {
        assert("-m=DELETE"@[1] == 'm' && t[1] == '-');
    }
    assert(t != "--method=DELETE"@) by {
        assert("--method=DELETE"@[2] == 'm' && t[2] == 'b');
    }
    assert(t != "-m=PUT"@) by {
        assert("-m=PUT"@[1] == 'm' && t[1] == '-');
    }
    assert(t != "--method=PUT"@) by {
        assert("--method=PUT"@[2] == 'm' && t[2] == 'b');
    }
    assert(t != "-m=PATCH"@) by {
        assert("-m=PATCH"@[1] == 'm' && t[1] == '-');
    }
    assert(t != "--method=PATCH"@) by {
        assert("--method=PATCH"@[2] == 'm' && t[2] == 'b');
    }
    assert(t != "-f"@) by {
        assert("-f"@[1] == 'f' && t[1] == '-');
    }
    assert(t != "--file"@) by {
        assert("--file"@[2] == 'f' && t[2] == 'b');
    }
    assert(t != "-l"@) by {
        assert("-l"@[1] == 'l' && t[1] == '-');
    }
    assert(t != "--log"@) by {
        assert("--log"@[2] == 'l' && t[2] == 'b');
    }
    assert(t != "-p"@) by {
        assert("-p"@[1] == 'p' && t[1] == '-');
    }
    assert(t != "--print"@) by {
        assert("--print"@[2] == 'p' && t[2] == 'b');
    }
    assert(t != "-sec"@) by {
        assert("-sec"@[1] == 's' && t[1] == '-');
    }
    assert(t != "--secure"@) by {
        assert("--secure"@[2] == 's' && t[2] == 'b');
    }
    assert(t != "-r-auth"@) by {
        assert("-r-auth"@[1] == 'r' && t[1] == '-');
    }
    assert(t != "--remove-authorization"@) by {
        assert("--remove-authorization"@[2] == 'r' && t[2] == 'b');
    }
    assert(!"-auth="@.is_prefix_of(t)) by {
        assert("-auth="@[1] == 'a' && t[1] == '-');
        if "-auth="@.len() <= t.len() {
            assert(t.subrange(0, "-auth="@.len() as int)[1] == t[1]);
        }
    }
    assert(!"--authorization="@.is_prefix_of(t)) by {
        assert("--authorization="@[2] == 'a' && t[2] == 'b');
        if "--authorization="@.len() <= t.len() {
            assert(t.subrange(0, "--authorization="@.len() as int)[2] == t[2]);
        }
    }
    assert(!"-u="@.is_prefix_of(t)) by {
        assert("-u="@[1] == 'u' && t[1] == '-');
        if "-u="@.len() <= t.len() {
            assert(t.subrange(0, "-u="@.len() as int)[1] == t[1]);
        }
    }
    assert(!"--uri="@.is_prefix_of(t)) by {
        assert("--uri="@[2] == 'u' && t[2] == 'b');
        if "--uri="@.len() <= t.len() {
            assert(t.subrange(0, "--uri="@.len() as int)[2] == t[2]);
        }
    }
    assert(!"-h="@.is_prefix_of(t)) by {
        assert("-h="@[1] == 'h' && t[1] == '-');
        if "-h="@.len() <= t.len() {
            assert(t.subrange(0, "-h="@.len() as int)[1] == t[1]);
        }
    }
    assert(!"--header="@.is_prefix_of(t)) by {
        assert("--header="@[2] == 'h' && t[2] == 'b');
        if "--header="@.len() <= t.len() {
            assert(t.subrange(0, "--header="@.len() as int)[2] == t[2]);
        }
    }
    assert(!"-b="@.is_prefix_of(t)) by {
        assert("-b="@[1] == 'b' && t[1] == '-');
        if "-b="@.len() <= t.len() {
            assert(t.subrange(0, "-b="@.len() as int)[1] == t[1]);
        }
    }
}

/// Both spellings of each method token give the same argument.
pub proof fn lemma_method_spellings()
    ensures
        parse_token("-m=GET"@) == Some(ArgumentView::Method(GemonMethodType::Get)),
        parse_token("--method=GET"@) == Some(ArgumentView::Method(GemonMethodType::Get)),
        parse_token("-m=POST"@) == Some(ArgumentView::Method(GemonMethodType::Post)),
        parse_token("--method=POST"@) == Some(ArgumentView::Method(GemonMethodType::Post)),
        parse_token("-m=DELETE"@) == Some(ArgumentView::Method(GemonMethodType::Delete)),
        parse_token("--method=DELETE"@) == Some(ArgumentView::Method(GemonMethodType::Delete)),
        parse_token("-m=PUT"@) == Some(ArgumentView::Method(GemonMethodType::Put)),
        parse_token("--method=PUT"@) == Some(ArgumentView::Method(GemonMethodType::Put)),
        parse_token("-m=PATCH"@) == Some(ArgumentView::Method(GemonMethodType::Patch)),
        parse_token("--method=PATCH"@) == Some(ArgumentView::Method(GemonMethodType::Patch)),
{
    reveal_strlit("-h");
    reveal_strlit("--help");
    reveal_strlit("-v");
    reveal_strlit("--version");
    reveal_strlit("init");
    reveal_strlit("print-env-all");
    reveal_strlit("print-env");
    reveal_strlit("print");
    reveal_strlit("-t=REST");
    reveal_strlit("--type=REST");
    reveal_strlit("-t=WEBSOCKET");
    reveal_strlit("--type=WEBSOCKET");
    reveal_strlit("-t=PROTO");
    reveal_strlit("--type=PROTO");
    reveal_strlit("-m=GET");
    reveal_strlit("--method=GET");
    reveal_strlit("-m=POST");
    reveal_strlit("--method=POST");
    reveal_strlit("-m=DELETE");
    reveal_strlit("--method=DELETE");
    reveal_strlit("-m=PUT");
    reveal_strlit("--method=PUT");
    reveal_strlit("-m=PATCH");
    reveal_strlit("--method=PATCH");
    assert("-m=GET"@.len() == 6 && "-h"@.len() == 2);
    assert("-m=GET"@ != "--help"@) by {
        assert("--help"@[1] == '-' && "-m=GET"@[1] == 'm');
    }
    assert("-m=GET"@.len() == 6 && "-v"@.len() == 2);
    assert("-m=GET"@.len() == 6 && "--version"@.len() == 9);
    assert("-m=GET"@.len() == 6 && "init"@.len() == 4);
    assert("-m=GET"@.len() == 6 && "print-env-all"@.len() == 13);
    assert("-m=GET"@.len() == 6 && "print-env"@.len() == 9);
    assert("-m=GET"@.len() == 6 && "print"@.len() == 5);
    assert("-m=GET"@.len() == 6 && "-t=REST"@.len() == 7);
    assert("-m=GET"@.len() == 6 && "--type=REST"@.len() == 11);
    assert("-m=GET"@.len() == 6 && "-t=WEBSOCKET"@.len() == 12);
    assert("-m=GET"@.len() == 6 && "--type=WEBSOCKET"@.len() == 16);
    assert("-m=GET"@.len() == 6 && "-t=PROTO"@.len() == 8);
    assert("-m=GET"@.len() == 6 && "--type=PROTO"@.len() == 12);
    assert("--method=GET"@.len() == 12 && "-h"@.len() == 2);
    assert("--method=GET"@.len() == 12 && "--help"@.len() == 6);
    assert("--method=GET"@.len() == 12 && "-v"@.len() == 2);
    assert("--method=GET"@.len() == 12 && "--version"@.len() == 9);
    assert("--method=GET"@.len() == 12 && "init"@.len() == 4);
    assert("--method=GET"@.len() == 12 && "print-env-all"@.len() == 13);
    assert("--method=GET"@.len() == 12 && "print-env"@.len() == 9);
    assert("--method=GET"@.len() == 12 && "print"@.len() == 5);
    assert("--method=GET"@.len() == 12 && "-t=REST"@.len() == 7);
    assert("--method=GET"@.len() == 12 && "--type=REST"@.len() == 11);
    assert("--method=GET"@ != "-t=WEBSOCKET"@) by {
        assert("-t=WEBSOCKET"@[1] == 't' && "--method=GET"@[1] == '-');
    }
    assert("--method=GET"@.len() == 12 && "--type=WEBSOCKET"@.len() == 16);
    assert("--method=GET"@.len() == 12 && "-t=PROTO"@.len() == 8);
    assert("--method=GET"@ != "--type=PROTO"@) by {
        assert("--type=PROTO"@[2] == 't' && "--method=GET"@[2] == 'm');
    }
    assert("--method=GET"@.len() == 12 && "-m=GET"@.len() == 6);
    assert("-m=POST"@.len() == 7 && "-h"@.len() == 2);
    assert("-m=POST"@.len() == 7 && "--help"@.len() == 6);
    assert("-m=POST"@.len() == 7 && "-v"@.len() == 2);
    assert("-m=POST"@.len() == 7 && "--version"@.len() == 9);
    assert("-m=POST"@.len() == 7 && "init"@.len() == 4);
    assert("-m=POST"@.len() == 7 && "print-env-all"@.len() == 13);
    assert("-m=POST"@.len() == 7 && "print-env"@.len() == 9);
    assert("-m=POST"@.len() == 7 && "print"@.len() == 5);
    assert("-m=POST"@ != "-t=REST"@) by {
        assert("-t=REST"@[1] == 't' && "-m=POST"@[1] == 'm');
    }
    assert("-m=POST"@.len() == 7 && "--type=REST"@.len() == 11);
    assert("-m=POST"@.len() == 7 && "-t=WEBSOCKET"@.len() == 12);
    assert("-m=POST"@.len() == 7 && "--type=WEBSOCKET"@.len() == 16);
    assert("-m=POST"@.len() == 7 && "-t=PROTO"@.len() == 8);
    assert("-m=POST"@.len() == 7 && "--type=PROTO"@.len() == 12);
    assert("-m=POST"@.len() == 7 && "-m=GET"@.len() == 6);
    assert("-m=POST"@.len() == 7 && "--method=GET"@.len() == 12);
    assert("--method=POST"@.len() == 13 && "-h"@.len() == 2);
    assert("--method=POST"@.len() == 13 && "--help"@.len() == 6);
    assert("--method=POST"@.len() == 13 && "-v"@.len() == 2);
    assert("--method=POST"@.len() == 13 && "--version"@.len() == 9);
    assert("--method=POST"@.len() == 13 && "init"@.len() == 4);
    assert("--method=POST"@ != "print-env-all"@) by {
        assert("print-env-all"@[0] == 'p' && "--method=POST"@[0] == '-');
    }
    assert("--method=POST"@.len() == 13 && "print-env"@.len() == 9);
    assert("--method=POST"@.len() == 13 && "print"@.len() == 5);
    assert("--method=POST"@.len() == 13 && "-t=REST"@.len() == 7);
    assert("--method=POST"@.len() == 13 && "--type=REST"@.len() == 11);
    assert("--method=POST"@.len() == 13 && "-t=WEBSOCKET"@.len() == 12);
    assert("--method=POST"@.len() == 13 && "--type=WEBSOCKET"@.len() == 16);
    assert("--method=POST"@.len() == 13 && "-t=PROTO"@.len() == 8);
    assert("--method=POST"@.len() == 13 && "--type=PROTO"@.len() == 12);
    assert("--method=POST"@.len() == 13 && "-m=GET"@.len() == 6);
    assert("--method=POST"@.len() == 13 && "--method=GET"@.len() == 12);
    assert("--method=POST"@.len() == 13 && "-m=POST"@.len() == 7);
    assert("-m=DELETE"@.len() == 9 && "-h"@.len() == 2);
    assert("-m=DELETE"@.len() == 9 && "--help"@.len() == 6);
    assert("-m=DELETE"@.len() == 9 && "-v"@.len() == 2);
    assert("-m=DELETE"@ != "--version"@) by {
        assert("--version"@[1] == '-' && "-m=DELETE"@[1] == 'm');
    }
    assert("-m=DELETE"@.len() == 9 && "init"@.len() == 4);
    assert("-m=DELETE"@.len() == 9 && "print-env-all"@.len() == 13);
    assert("-m=DELETE"@ != "print-env"@) by {
        assert("print-env"@[0] == 'p' && "-m=DELETE"@[0] == '-');
    }
    assert("-m=DELETE"@.len() == 9 && "print"@.len() == 5);
    assert("-m=DELETE"@.len() == 9 && "-t=REST"@.len() == 7);
    assert("-m=DELETE"@.len() == 9 && "--type=REST"@.len() == 11);
    assert("-m=DELETE"@.len() == 9 && "-t=WEBSOCKET"@.len() == 12);
    assert("-m=DELETE"@.len() == 9 && "--type=WEBSOCKET"@.len() == 16);
    assert("-m=DELETE"@.len() == 9 && "-t=PROTO"@.len() == 8);
    assert("-m=DELETE"@.len() == 9 && "--type=PROTO"@.len() == 12);
    assert("-m=DELETE"@.len() == 9 && "-m=GET"@.len() == 6);
    assert("-m=DELETE"@.len() == 9 && "--method=GET"@.len() == 12);
    assert("-m=DELETE"@.len() == 9 && "-m=POST"@.len() == 7);
    assert("-m=DELETE"@.len() == 9 && "--method=POST"@.len() == 13);
    assert("--method=DELETE"@.len() == 15 && "-h"@.len() == 2);
    assert("--method=DELETE"@.len() == 15 && "--help"@.len() == 6);
    assert("--method=DELETE"@.len() == 15 && "-v"@.len() == 2);
    assert("--method=DELETE"@.len() == 15 && "--version"@.len() == 9);
    assert("--method=DELETE"@.len() == 15 && "init"@.len() == 4);
    assert("--method=DELETE"@.len() == 15 && "print-env-all"@.len() == 13);
    assert("--method=DELETE"@.len() == 15 && "print-env"@.len() == 9);
    assert("--method=DELETE"@.len() == 15 && "print"@.len() == 5);
    assert("--method=DELETE"@.len() == 15 && "-t=REST"@.len() == 7);
    assert("--method=DELETE"@.len() == 15 && "--type=REST"@.len() == 11);
    assert("--method=DELETE"@.len() == 15 && "-t=WEBSOCKET"@.len() == 12);
    assert("--method=DELETE"@.len() == 15 && "--type=WEBSOCKET"@.len() == 16);
    assert("--method=DELETE"@.len() == 15 && "-t=PROTO"@.len() == 8);
    assert("--method=DELETE"@.len() == 15 && "--type=PROTO"@.len() == 12);
    assert("--method=DELETE"@.len() == 15 && "-m=GET"@.len() == 6);
    assert("--method=DELETE"@.len() == 15 && "--method=GET"@.len() == 12);
    assert("--method=DELETE"@.len() == 15 && "-m=POST"@.len() == 7);
    assert("--method=DELETE"@.len() == 15 && "--method=POST"@.len() == 13);
    assert("--method=DELETE"@.len() == 15 && "-m=DELETE"@.len() == 9);
    assert("-m=PUT"@.len() == 6 && "-h"@.len() == 2);
    assert("-m=PUT"@ != "--help"@) by {
        assert("--help"@[1] == '-' && "-m=PUT"@[1] == 'm');
    }
    assert("-m=PUT"@.len() == 6 && "-v"@.len() == 2);
    assert("-m=PUT"@.len() == 6 && "--version"@.len() == 9);
    assert("-m=PUT"@.len() == 6 && "init"@.len() == 4);
    assert("-m=PUT"@.len() == 6 && "print-env-all"@.len() == 13);
    assert("-m=PUT"@.len() == 6 && "print-env"@.len() == 9);
    assert("-m=PUT"@.len() == 6 && "print"@.len() == 5);
    assert("-m=PUT"@.len() == 6 && "-t=REST"@.len() == 7);
    assert("-m=PUT"@.len() == 6 && "--type=REST"@.len() == 11);
    assert("-m=PUT"@.len() == 6 && "-t=WEBSOCKET"@.len() == 12);
    assert("-m=PUT"@.len() == 6 && "--type=WEBSOCKET"@.len() == 16);
    assert("-m=PUT"@.len() == 6 && "-t=PROTO"@.len() == 8);
    assert("-m=PUT"@.len() == 6 && "--type=PROTO"@.len() == 12);
    assert("-m=PUT"@ != "-m=GET"@) by {
        assert("-m=GET"@[3] == 'G' && "-m=PUT"@[3] == 'P');
    }
    assert("-m=PUT"@.len() == 6 && "--method=GET"@.len() == 12);
    assert("-m=PUT"@.len() == 6 && "-m=POST"@.len() == 7);
    assert("-m=PUT"@.len() == 6 && "--method=POST"@.len() == 13);
    assert("-m=PUT"@.len() == 6 && "-m=DELETE"@.len() == 9);
    assert("-m=PUT"@.len() == 6 && "--method=DELETE"@.len() == 15);
    assert("--method=PUT"@.len() == 12 && "-h"@.len() == 2);
    assert("--method=PUT"@.len() == 12 && "--help"@.len() == 6);
    assert("--method=PUT"@.len() == 12 && "-v"@.len() == 2);
    assert("--method=PUT"@.len() == 12 && "--version"@.len() == 9);
    assert("--method=PUT"@.len() == 12 && "init"@.len() == 4);
    assert("--method=PUT"@.len() == 12 && "print-env-all"@.len() == 13);
    assert("--method=PUT"@.len() == 12 && "print-env"@.len() == 9);
    assert("--method=PUT"@.len() == 12 && "print"@.len() == 5);
    assert("--method=PUT"@.len() == 12 && "-t=REST"@.len() == 7);
    assert("--method=PUT"@.len() == 12 && "--type=REST"@.len() == 11);
    assert("--method=PUT"@ != "-t=WEBSOCKET"@) by {
        assert("-t=WEBSOCKET"@[1] == 't' && "--method=PUT"@[1] == '-');
    }
    assert("--method=PUT"@.len() == 12 && "--type=WEBSOCKET"@.len() == 16);
    assert("--method=PUT"@.len() == 12 && "-t=PROTO"@.len() == 8);
    assert("--method=PUT"@ != "--type=PROTO"@) by {
        assert("--type=PROTO"@[2] == 't' && "--method=PUT"@[2] == 'm');
    }
    assert("--method=PUT"@.len() == 12 && "-m=GET"@.len() == 6);
    assert("--method=PUT"@ != "--method=GET"@) by {
        assert("--method=GET"@[9] == 'G' && "--method=PUT"@[9] == 'P');
    }
    assert("--method=PUT"@.len() == 12 && "-m=POST"@.len() == 7);
    assert("--method=PUT"@.len() == 12 && "--method=POST"@.len() == 13);
    assert("--method=PUT"@.len() == 12 && "-m=DELETE"@.len() == 9);
    assert("--method=PUT"@.len() == 12 && "--method=DELETE"@.len() == 15);
    assert("--method=PUT"@.len() == 12 && "-m=PUT"@.len() == 6);
    assert("-m=PATCH"@.len() == 8 && "-h"@.len() == 2);
    assert("-m=PATCH"@.len() == 8 && "--help"@.len() == 6);
    assert("-m=PATCH"@.len() == 8 && "-v"@.len() == 2);
    assert("-m=PATCH"@.len() == 8 && "--version"@.len() == 9);
    assert("-m=PATCH"@.len() == 8 && "init"@.len() == 4);
    assert("-m=PATCH"@.len() == 8 && "print-env-all"@.len() == 13);
    assert("-m=PATCH"@.len() == 8 && "print-env"@.len() == 9);
    assert("-m=PATCH"@.len() == 8 && "print"@.len() == 5);
    assert("-m=PATCH"@.len() == 8 && "-t=REST"@.len() == 7);
    assert("-m=PATCH"@.len() == 8 && "--type=REST"@.len() == 11);
    assert("-m=PATCH"@.len() == 8 && "-t=WEBSOCKET"@.len() == 12);
    assert("-m=PATCH"@.len() == 8 && "--type=WEBSOCKET"@.len() == 16);
    assert("-m=PATCH"@ != "-t=PROTO"@) by {
        assert("-t=PROTO"@[1] == 't' && "-m=PATCH"@[1] == 'm');
    }
    assert("-m=PATCH"@.len() == 8 && "--type=PROTO"@.len() == 12);
    assert("-m=PATCH"@.len() == 8 && "-m=GET"@.len() == 6);
    assert("-m=PATCH"@.len() == 8 && "--method=GET"@.len() == 12);
    assert("-m=PATCH"@.len() == 8 && "-m=POST"@.len() == 7);
    assert("-m=PATCH"@.len() == 8 && "--method=POST"@.len() == 13);
    assert("-m=PATCH"@.len() == 8 && "-m=DELETE"@.len() == 9);
    assert("-m=PATCH"@.len() == 8 && "--method=DELETE"@.len() == 15);
    assert("-m=PATCH"@.len() == 8 && "-m=PUT"@.len() == 6);
    assert("-m=PATCH"@.len() == 8 && "--method=PUT"@.len() == 12);
    assert("--method=PATCH"@.len() == 14 && "-h"@.len() == 2);
    assert("--method=PATCH"@.len() == 14 && "--help"@.len() == 6);
    assert("--method=PATCH"@.len() == 14 && "-v"@.len() == 2);
    assert("--method=PATCH"@.len() == 14 && "--version"@.len() == 9);
    assert("--method=PATCH"@.len() == 14 && "init"@.len() == 4);
    assert("--method=PATCH"@.len() == 14 && "print-env-all"@.len() == 13);
    assert("--method=PATCH"@.len() == 14 && "print-env"@.len() == 9);
    assert("--method=PATCH"@.len() == 14 && "print"@.len() == 5);
    assert("--method=PATCH"@.len() == 14 && "-t=REST"@.len() == 7);
    assert("--method=PATCH"@.len() == 14 && "--type=REST"@.len() == 11);
    assert("--method=PATCH"@.len() == 14 && "-t=WEBSOCKET"@.len() == 12);
    assert("--method=PATCH"@.len() == 14 && "--type=WEBSOCKET"@.len() == 16);
    assert("--method=PATCH"@.len() == 14 && "-t=PROTO"@.len() == 8);
    assert("--method=PATCH"@.len() == 14 && "--type=PROTO"@.len() == 12);
    assert("--method=PATCH"@.len() == 14 && "-m=GET"@.len() == 6);
    assert("--method=PATCH"@.len() == 14 && "--method=GET"@.len() == 12);
    assert("--method=PATCH"@.len() == 14 && "-m=POST"@.len() == 7);
    assert("--method=PATCH"@.len() == 14 && "--method=POST"@.len() == 13);
    assert("--method=PATCH"@.len() == 14 && "-m=DELETE"@.len() == 9);
    assert("--method=PATCH"@.len() == 14 && "--method=DELETE"@.len() == 15);
    assert("--method=PATCH"@.len() == 14 && "-m=PUT"@.len() == 6);
    assert("--method=PATCH"@.len() == 14 && "--method=PUT"@.len() == 12);
    assert("--method=PATCH"@.len() == 14 && "-m=PATCH"@.len() == 8);
}

/// Both spellings of each request-kind token give the same argument.
pub proof fn lemma_type_spellings()
    ensures
        parse_token("-t=REST"@) == Some(ArgumentView::Type(GemonType::Rest)),
        parse_token("--type=REST"@) == Some(ArgumentView::Type(GemonType::Rest)),
        parse_token("-t=WEBSOCKET"@) == Some(ArgumentView::Type(GemonType::Websocket)),
        parse_token("--type=WEBSOCKET"@) == Some(ArgumentView::Type(GemonType::Websocket)),
        parse_token("-t=PROTO"@) == Some(ArgumentView::Type(GemonType::Proto)),
        parse_token("--type=PROTO"@) == Some(ArgumentView::Type(GemonType::Proto)),
{
    reveal_strlit("-h");
    reveal_strlit("--help");
    reveal_strlit("-v");
    reveal_strlit("--version");
    reveal_strlit("init");
    reveal_strlit("print-env-all");
    reveal_strlit("print-env");
    reveal_strlit("print");
    reveal_strlit("-t=REST");
    reveal_strlit("--type=REST");
    reveal_strlit("-t=WEBSOCKET");
    reveal_strlit("--type=WEBSOCKET");
    reveal_strlit("-t=PROTO");
    reveal_strlit("--type=PROTO");
    assert("-t=REST"@.len() == 7 && "-h"@.len() == 2);
    assert("-t=REST"@.len() == 7 && "--help"@.len() == 6);
    assert("-t=REST"@.len() == 7 && "-v"@.len() == 2);
    assert("-t=REST"@.len() == 7 && "--version"@.len() == 9);
    assert("-t=REST"@.len() == 7 && "init"@.len() == 4);
    assert("-t=REST"@.len() == 7 && "print-env-all"@.len() == 13);
    assert("-t=REST"@.len() == 7 && "print-env"@.len() == 9);
    assert("-t=REST"@.len() == 7 && "print"@.len() == 5);
    assert("--type=REST"@.len() == 11 && "-h"@.len() == 2);
    assert("--type=REST"@.len() == 11 && "--help"@.len() == 6);
    assert("--type=REST"@.len() == 11 && "-v"@.len() == 2);
    assert("--type=REST"@.len() == 11 && "--version"@.len() == 9);
    assert("--type=REST"@.len() == 11 && "init"@.len() == 4);
    assert("--type=REST"@.len() == 11 && "print-env-all"@.len() == 13);
    assert("--type=REST"@.len() == 11 && "print-env"@.len() == 9);
    assert("--type=REST"@.len() == 11 && "print"@.len() == 5);
    assert("--type=REST"@.len() == 11 && "-t=REST"@.len() == 7);
    assert("-t=WEBSOCKET"@.len() == 12 && "-h"@.len() == 2);
    assert("-t=WEBSOCKET"@.len() == 12 && "--help"@.len() == 6);
    assert("-t=WEBSOCKET"@.len() == 12 && "-v"@.len() == 2);
    assert("-t=WEBSOCKET"@.len() == 12 && "--version"@.len() == 9);
    assert("-t=WEBSOCKET"@.len() == 12 && "init"@.len() == 4);
    assert("-t=WEBSOCKET"@.len() == 12 && "print-env-all"@.len() == 13);
    assert("-t=WEBSOCKET"@.len() == 12 && "print-env"@.len() == 9);
    assert("-t=WEBSOCKET"@.len() == 12 && "print"@.len() == 5);
    assert("-t=WEBSOCKET"@.len() == 12 && "-t=REST"@.len() == 7);
    assert("-t=WEBSOCKET"@.len() == 12 && "--type=REST"@.len() == 11);
    assert("--type=WEBSOCKET"@.len() == 16 && "-h"@.len() == 2);
    assert("--type=WEBSOCKET"@.len() == 16 && "--help"@.len() == 6);
    assert("--type=WEBSOCKET"@.len() == 16 && "-v"@.len() == 2);
    assert("--type=WEBSOCKET"@.len() == 16 && "--version"@.len() == 9);
    assert("--type=WEBSOCKET"@.len() == 16 && "init"@.len() == 4);
    assert("--type=WEBSOCKET"@.len() == 16 && "print-env-all"@.len() == 13);
    assert("--type=WEBSOCKET"@.len() == 16 && "print-env"@.len() == 9);
    assert("--type=WEBSOCKET"@.len() == 16 && "print"@.len() == 5);
    assert("--type=WEBSOCKET"@.len() == 16 && "-t=REST"@.len() == 7);
    assert("--type=WEBSOCKET"@.len() == 16 && "--type=REST"@.len() == 11);
    assert("--type=WEBSOCKET"@.len() == 16 && "-t=WEBSOCKET"@.len() == 12);
    assert("-t=PROTO"@.len() == 8 && "-h"@.len() == 2);
    assert("-t=PROTO"@.len() == 8 && "--help"@.len() == 6);
    assert("-t=PROTO"@.len() == 8 && "-v"@.len() == 2);
    assert("-t=PROTO"@.len() == 8 && "--version"@.len() == 9);
    assert("-t=PROTO"@.len() == 8 && "init"@.len() == 4);
    assert("-t=PROTO"@.len() == 8 && "print-env-all"@.len() == 13);
    assert("-t=PROTO"@.len() == 8 && "print-env"@.len() == 9);
    assert("-t=PROTO"@.len() == 8 && "print"@.len() == 5);
    assert("-t=PROTO"@.len() == 8 && "-t=REST"@.len() == 7);
    assert("-t=PROTO"@.len() == 8 && "--type=REST"@.len() == 11);
    assert("-t=PROTO"@.len() == 8 && "-t=WEBSOCKET"@.len() == 12);
    assert("-t=PROTO"@.len() == 8 && "--type=WEBSOCKET"@.len() == 16);
    assert("--type=PROTO"@.len() == 12 && "-h"@.len() == 2);
    assert("--type=PROTO"@.len() == 12 && "--help"@.len() == 6);
    assert("--type=PROTO"@.len() == 12 && "-v"@.len() == 2);
    assert("--type=PROTO"@.len() == 12 && "--version"@.len() == 9);
    assert("--type=PROTO"@.len() == 12 && "init"@.len() == 4);
    assert("--type=PROTO"@.len() == 12 && "print-env-all"@.len() == 13);
    assert("--type=PROTO"@.len() == 12 && "print-env"@.len() == 9);
    assert("--type=PROTO"@.len() == 12 && "print"@.len() == 5);
    assert("--type=PROTO"@.len() == 12 && "-t=REST"@.len() == 7);
    assert("--type=PROTO"@.len() == 12 && "--type=REST"@.len() == 11);
    assert("--type=PROTO"@ != "-t=WEBSOCKET"@) by {
        assert("-t=WEBSOCKET"@[1] == 't' && "--type=PROTO"@[1] == '-');
    }
    assert("--type=PROTO"@.len() == 12 && "--type=WEBSOCKET"@.len() == 16);
    assert("--type=PROTO"@.len() == 12 && "-t=PROTO"@.len() == 8);
}

} // verus!
