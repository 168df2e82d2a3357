//! The replies of the server that runs on the pool: which page answers a
//! request line, and the text that carries a page back.

use vstd::prelude::*;
use vstd::string::StringExecFns;

verus! {

/// The page that answers a request.
#[derive(Clone, Copy, PartialEq, Eq, Structural, Debug)]
pub enum Page {
    /// The greeting, served for a plain request of the root.
    Hello,
    /// The page served for everything else.
    NotFound,
}

/// The page that answers a request whose first line is `request_line`.
pub open spec fn page_for(request_line: Seq<char>) -> Page {
    if request_line == "GET / HTTP/1.1"@ {
        Page::Hello
    } else {
        Page::NotFound
    }
}

/// The character of the decimal digit `d`.
pub open spec fn digit(d: nat) -> char {
    if d == 0 {
        '0'
    } else if d == 1 {
        '1'
    } else if d == 2 {
        '2'
    } else if d == 3 {
        '3'
    } else if d == 4 {
        '4'
    } else if d == 5 {
        '5'
    } else if d == 6 {
        '6'
    } else if d == 7 {
        '7'
    } else if d == 8 {
        '8'
    } else {
        '9'
    }
}

/// The decimal numeral of `n`, without leading zeros.
pub open spec fn decimal(n: nat) -> Seq<char>
    decreases n,
{
    if n < 10 {
        seq![digit(n)]
    } else {
        decimal(n / 10).push(digit(n % 10))
    }
}

/// The reply that carries `contents`, `length` bytes long, under
/// `status_line`.
pub open spec fn response_text(status_line: Seq<char>, length: nat, contents: Seq<char>) -> Seq<
    char,
> {
    status_line + "\r\nContent-Length: "@ + decimal(length) + "\r\n"@ + contents + "\r\n"@
}

impl Page {
    /// The page that answers a request whose first line is `request_line`:
    /// the greeting for `GET / HTTP/1.1`, letter for letter, and the
    /// not-found page for any other line.
    pub fn select(request_line: &str) -> (page: Page)
        ensures
            page == page_for(request_line@),
    {
        let line: String = request_line.to_owned();
        let root: String = "GET / HTTP/1.1".to_owned();
        if line == root {
            Page::Hello
        } else {
            Page::NotFound
        }
    }

    /// The status line of the page's reply and the blank line after it.
    pub open spec fn status_text(self) -> Seq<char> {
        match self {
            Page::Hello => "HTTP/1.1 200 OK\r\n\r\n"@,
            Page::NotFound => "HTTP/1.1 404 NOT FOUND\r\n\r\n"@,
        }
    }

    /// The name of the file that holds the page.
    pub open spec fn file_text(self) -> Seq<char> {
        match self {
            Page::Hello => "hello.html"@,
            Page::NotFound => "404.html"@,
        }
    }

    /// The status line of the page's reply and the blank line after it.
    pub fn status_line(&self) -> (line: &'static str)
        ensures
            line@ == self.status_text(),
    {
        match self {
            Page::Hello => "HTTP/1.1 200 OK\r\n\r\n",
            Page::NotFound => "HTTP/1.1 404 NOT FOUND\r\n\r\n",
        }
    }

    /// The name of the file that holds the page.
    pub fn filename(&self) -> (name: &'static str)
        ensures
            name@ == self.file_text(),
    {
        match self {
            Page::Hello => "hello.html",
            Page::NotFound => "404.html",
        }
    }
}

/// The one-character text of the decimal digit `d`.
fn digit_str(d: usize) -> (text: &'static str)
    requires
        d < 10,
    ensures
        text@ == seq![digit(d as nat)],
{
    let text = if d == 0 {
        "0"
    } else if d == 1 {
        "1"
    } else if d == 2 {
        "2"
    } else if d == 3 {
        "3"
    } else if d == 4 {
        "4"
    } else if d == 5 {
        "5"
    } else if d == 6 {
        "6"
    } else if d == 7 {
        "7"
    } else if d == 8 {
        "8"
    } else {
        "9"
    };
    proof {
        reveal_strlit("0");
        reveal_strlit("1");
        reveal_strlit("2");
        reveal_strlit("3");
        reveal_strlit("4");
        reveal_strlit("5");
        reveal_strlit("6");
        reveal_strlit("7");
        reveal_strlit("8");
        reveal_strlit("9");
        assert(text@ =~= seq![digit(d as nat)]);
    }
    text
}

/// Appends the decimal numeral of `n` to `out`.
pub fn push_decimal(out: &mut String, n: usize)
    ensures
        final(out)@ == old(out)@ + decimal(n as nat),
    decreases n,
{
    if n >= 10 {
        push_decimal(out, n / 10);
    }
    out.append(digit_str(n % 10));
    proof {
        if n >= 10 {
            assert(out@ =~= old(out)@ + decimal(n as nat));
        }
    }
}

/// The reply that carries `contents` under `status_line`: the status line,
/// a line that gives the length of `contents` in bytes, then `contents` and a
/// line end.
pub fn response(status_line: &str, contents: &str) -> (reply: String)
    ensures
        reply@ == response_text(status_line@, contents.len() as nat, contents@),
{
    let mut reply = status_line.to_owned();
    reply.append("\r\nContent-Length: ");
    push_decimal(&mut reply, contents.len());
    reply.append("\r\n");
    reply.append(contents);
    reply.append("\r\n");
    reply
}

} // verus!
