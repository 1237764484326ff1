use vstd::prelude::*;

use crate::client::FILES_ENDPOINT;
use crate::error::Error;

verus! {

/// The file formats that a search can name.
#[derive(Debug, Clone, Copy)]
pub enum FormatOpts {
    Jpg,
    Webp,
    Png,
    Gif,
    Svg,
    Avif,
    Pdf,
    Js,
    Woff2,
    Woff,
    Ttf,
    Otf,
    Eot,
    Css,
    Txt,
    Mp4,
    Webm,
    Mov,
    Swf,
    Ts,
    M3u8,
    Ico,
}

impl FormatOpts {
    /// The name of the format in the query language.
    pub open spec fn name(self) -> Seq<char> {
        match self {
            FormatOpts::Jpg => "jpg"@,
            FormatOpts::Webp => "webp"@,
            FormatOpts::Png => "png"@,
            FormatOpts::Gif => "gif"@,
            FormatOpts::Svg => "svg"@,
            FormatOpts::Avif => "avif"@,
            FormatOpts::Pdf => "pdf"@,
            FormatOpts::Js => "js"@,
            FormatOpts::Woff2 => "woff2"@,
            FormatOpts::Woff => "woff"@,
            FormatOpts::Ttf => "ttf"@,
            FormatOpts::Otf => "otf"@,
            FormatOpts::Eot => "eot"@,
            FormatOpts::Css => "css"@,
            FormatOpts::Txt => "txt"@,
            FormatOpts::Mp4 => "mp4"@,
            FormatOpts::Webm => "webm"@,
            FormatOpts::Mov => "mov"@,
            FormatOpts::Swf => "swf"@,
            FormatOpts::Ts => "ts"@,
            FormatOpts::M3u8 => "m3u8"@,
            FormatOpts::Ico => "ico"@,
        }
    }

    /// The name of the format in the query language.
    pub fn as_str(&self) -> (r: &'static str)
        ensures
            r@ == self.name(),
    {
        match self {
            FormatOpts::Jpg => "jpg",
            FormatOpts::Webp => "webp",
            FormatOpts::Png => "png",
            FormatOpts::Gif => "gif",
            FormatOpts::Svg => "svg",
            FormatOpts::Avif => "avif",
            FormatOpts::Pdf => "pdf",
            FormatOpts::Js => "js",
            FormatOpts::Woff2 => "woff2",
            FormatOpts::Woff => "woff",
            FormatOpts::Ttf => "ttf",
            FormatOpts::Otf => "otf",
            FormatOpts::Eot => "eot",
            FormatOpts::Css => "css",
            FormatOpts::Txt => "txt",
            FormatOpts::Mp4 => "mp4",
            FormatOpts::Webm => "webm",
            FormatOpts::Mov => "mov",
            FormatOpts::Swf => "swf",
            FormatOpts::Ts => "ts",
            FormatOpts::M3u8 => "m3u8",
            FormatOpts::Ico => "ico",
        }
    }

    /// The name of the format in the query language, as an owned string.
    pub fn to_string(&self) -> (r: String)
        ensures
            r@ == self.name(),
    {
        self.as_str().to_owned()
    }
}

/// The format whose query-language name is `s`, if any.
pub open spec fn parse_name(s: Seq<char>) -> Option<FormatOpts> {
    if s == "jpg"@ {
        Some(FormatOpts::Jpg)
    } else if s == "webp"@ {
        Some(FormatOpts::Webp)
    } else if s == "png"@ {
        Some(FormatOpts::Png)
    } else if s == "gif"@ {
        Some(FormatOpts::Gif)
    } else if s == "svg"@ {
        Some(FormatOpts::Svg)
    } else if s == "avif"@ {
        Some(FormatOpts::Avif)
    } else if s == "pdf"@ {
        Some(FormatOpts::Pdf)
    } else if s == "js"@ {
        Some(FormatOpts::Js)
    } else if s == "woff2"@ {
        Some(FormatOpts::Woff2)
    } else if s == "woff"@ {
        Some(FormatOpts::Woff)
    } else if s == "ttf"@ {
        Some(FormatOpts::Ttf)
    } else if s == "otf"@ {
        Some(FormatOpts::Otf)
    } else if s == "eot"@ {
        Some(FormatOpts::Eot)
    } else if s == "css"@ {
        Some(FormatOpts::Css)
    } else if s == "txt"@ {
        Some(FormatOpts::Txt)
    } else if s == "mp4"@ {
        Some(FormatOpts::Mp4)
    } else if s == "webm"@ {
        Some(FormatOpts::Webm)
    } else if s == "mov"@ {
        Some(FormatOpts::Mov)
    } else if s == "swf"@ {
        Some(FormatOpts::Swf)
    } else if s == "ts"@ {
        Some(FormatOpts::Ts)
    } else if s == "m3u8"@ {
        Some(FormatOpts::M3u8)
    } else if s == "ico"@ {
        Some(FormatOpts::Ico)
    } else {
        None
    }
}

/// The format that an equality query `format="<name>"` asks for, if `q` is one.
pub open spec fn parse_format_eq_query(q: Seq<char>) -> Option<FormatOpts> {
    let head = "format=\""@;
    if q.len() >= head.len() + 1 && q.subrange(0, head.len() as int) == head && q.last() == '"' {
        parse_name(q.subrange(head.len() as int, q.len() - 1))
    } else {
        None
    }
}

/// Every format's name reads back as that format.
pub proof fn lemma_parse_name(f: FormatOpts)
    ensures
        parse_name(f.name()) == Some(f),
{
    match f {
        FormatOpts::Jpg => {
            reveal_strlit("jpg");
        },
        FormatOpts::Webp => {
            reveal_strlit("webp");
            reveal_strlit("jpg");
            assert("webp"@.len() != "jpg"@.len());
        },
        FormatOpts::Png => {
            reveal_strlit("png");
            reveal_strlit("jpg");
            assert("png"@[0] != "jpg"@[0]);
            reveal_strlit("webp");
            assert("png"@.len() != "webp"@.len());
        },
        FormatOpts::Gif => {
            reveal_strlit("gif");
            reveal_strlit("jpg");
            assert("gif"@[0] != "jpg"@[0]);
            reveal_strlit("webp");
            assert("gif"@.len() != "webp"@.len());
            reveal_strlit("png");
            assert("gif"@[0] != "png"@[0]);
        },
        FormatOpts::Svg => {
            reveal_strlit("svg");
            reveal_strlit("jpg");
            assert("svg"@[0] != "jpg"@[0]);
            reveal_strlit("webp");
            assert("svg"@.len() != "webp"@.len());
            reveal_strlit("png");
            assert("svg"@[0] != "png"@[0]);
            reveal_strlit("gif");
            assert("svg"@[0] != "gif"@[0]);
        },
        FormatOpts::Avif => {
            reveal_strlit("avif");
            reveal_strlit("jpg");
            assert("avif"@.len() != "jpg"@.len());
            reveal_strlit("webp");
            assert("avif"@[0] != "webp"@[0]);
            reveal_strlit("png");
            assert("avif"@.len() != "png"@.len());
            reveal_strlit("gif");
            assert("avif"@.len() != "gif"@.len());
            reveal_strlit("svg");
            assert("avif"@.len() != "svg"@.len());
        },
        FormatOpts::Pdf => {
            reveal_strlit("pdf");
            reveal_strlit("jpg");
            assert("pdf"@[0] != "jpg"@[0]);
            reveal_strlit("webp");
            assert("pdf"@.len() != "webp"@.len());
            reveal_strlit("png");
            assert("pdf"@[1] != "png"@[1]);
            reveal_strlit("gif");
            assert("pdf"@[0] != "gif"@[0]);
            reveal_strlit("svg");
            assert("pdf"@[0] != "svg"@[0]);
            reveal_strlit("avif");
            assert("pdf"@.len() != "avif"@.len());
        },
        FormatOpts::Js => {
            reveal_strlit("js");
            reveal_strlit("jpg");
            assert("js"@.len() != "jpg"@.len());
            reveal_strlit("webp");
            assert("js"@.len() != "webp"@.len());
            reveal_strlit("png");
            assert("js"@.len() != "png"@.len());
            reveal_strlit("gif");
            assert("js"@.len() != "gif"@.len());
            reveal_strlit("svg");
            assert("js"@.len() != "svg"@.len());
            reveal_strlit("avif");
            assert("js"@.len() != "avif"@.len());
            reveal_strlit("pdf");
            assert("js"@.len() != "pdf"@.len());
        },
        FormatOpts::Woff2 => {
            reveal_strlit("woff2");
            reveal_strlit("jpg");
            assert("woff2"@.len() != "jpg"@.len());
            reveal_strlit("webp");
            assert("woff2"@.len() != "webp"@.len());
            reveal_strlit("png");
            assert("woff2"@.len() != "png"@.len());
            reveal_strlit("gif");
            assert("woff2"@.len() != "gif"@.len());
            reveal_strlit("svg");
            assert("woff2"@.len() != "svg"@.len());
            reveal_strlit("avif");
            assert("woff2"@.len() != "avif"@.len());
            reveal_strlit("pdf");
            assert("woff2"@.len() != "pdf"@.len());
            reveal_strlit("js");
            assert("woff2"@.len() != "js"@.len());
        },
        FormatOpts::Woff => {
            reveal_strlit("woff");
            reveal_strlit("jpg");
            assert("woff"@.len() != "jpg"@.len());
            reveal_strlit("webp");
            assert("woff"@[1] != "webp"@[1]);
            reveal_strlit("png");
            assert("woff"@.len() != "png"@.len());
            reveal_strlit("gif");
            assert("woff"@.len() != "gif"@.len());
            reveal_strlit("svg");
            assert("woff"@.len() != "svg"@.len());
            reveal_strlit("avif");
            assert("woff"@[0] != "avif"@[0]);
            reveal_strlit("pdf");
            assert("woff"@.len() != "pdf"@.len());
            reveal_strlit("js");
            assert("woff"@.len() != "js"@.len());
            reveal_strlit("woff2");
            assert("woff"@.len() != "woff2"@.len());
        },
        FormatOpts::Ttf => {
            reveal_strlit("ttf");
            reveal_strlit("jpg");
            assert("ttf"@[0] != "jpg"@[0]);
            reveal_strlit("webp");
            assert("ttf"@.len() != "webp"@.len());
            reveal_strlit("png");
            assert("ttf"@[0] != "png"@[0]);
            reveal_strlit("gif");
            assert("ttf"@[0] != "gif"@[0]);
            reveal_strlit("svg");
            assert("ttf"@[0] != "svg"@[0]);
            reveal_strlit("avif");
            assert("ttf"@.len() != "avif"@.len());
            reveal_strlit("pdf");
            assert("ttf"@[0] != "pdf"@[0]);
            reveal_strlit("js");
            assert("ttf"@.len() != "js"@.len());
            reveal_strlit("woff2");
            assert("ttf"@.len() != "woff2"@.len());
            reveal_strlit("woff");
            assert("ttf"@.len() != "woff"@.len());
        },
        FormatOpts::Otf => {
            reveal_strlit("otf");
            reveal_strlit("jpg");
            assert("otf"@[0] != "jpg"@[0]);
            reveal_strlit("webp");
            assert("otf"@.len() != "webp"@.len());
            reveal_strlit("png");
            assert("otf"@[0] != "png"@[0]);
            reveal_strlit("gif");
            assert("otf"@[0] != "gif"@[0]);
            reveal_strlit("svg");
            assert("otf"@[0] != "svg"@[0]);
            reveal_strlit("avif");
            assert("otf"@.len() != "avif"@.len());
            reveal_strlit("pdf");
            assert("otf"@[0] != "pdf"@[0]);
            reveal_strlit("js");
            assert("otf"@.len() != "js"@.len());
            reveal_strlit("woff2");
            assert("otf"@.len() != "woff2"@.len());
            reveal_strlit("woff");
            assert("otf"@.len() != "woff"@.len());
            reveal_strlit("ttf");
            assert("otf"@[0] != "ttf"@[0]);
        },
        FormatOpts::Eot => {
            reveal_strlit("eot");
            reveal_strlit("jpg");
            assert("eot"@[0] != "jpg"@[0]);
            reveal_strlit("webp");
            assert("eot"@.len() != "webp"@.len());
            reveal_strlit("png");
            assert("eot"@[0] != "png"@[0]);
            reveal_strlit("gif");
            assert("eot"@[0] != "gif"@[0]);
            reveal_strlit("svg");
            assert("eot"@[0] != "svg"@[0]);
            reveal_strlit("avif");
            assert("eot"@.len() != "avif"@.len());
            reveal_strlit("pdf");
            assert("eot"@[0] != "pdf"@[0]);
            reveal_strlit("js");
            assert("eot"@.len() != "js"@.len());
            reveal_strlit("woff2");
            assert("eot"@.len() != "woff2"@.len());
            reveal_strlit("woff");
            assert("eot"@.len() != "woff"@.len());
            reveal_strlit("ttf");
            assert("eot"@[0] != "ttf"@[0]);
            reveal_strlit("otf");
            assert("eot"@[0] != "otf"@[0]);
        },
        FormatOpts::Css => {
            reveal_strlit("css");
            reveal_strlit("jpg");
            assert("css"@[0] != "jpg"@[0]);
            reveal_strlit("webp");
            assert("css"@.len() != "webp"@.len());
            reveal_strlit("png");
            assert("css"@[0] != "png"@[0]);
            reveal_strlit("gif");
            assert("css"@[0] != "gif"@[0]);
            reveal_strlit("svg");
            assert("css"@[0] != "svg"@[0]);
            reveal_strlit("avif");
            assert("css"@.len() != "avif"@.len());
            reveal_strlit("pdf");
            assert("css"@[0] != "pdf"@[0]);
            reveal_strlit("js");
            assert("css"@.len() != "js"@.len());
            reveal_strlit("woff2");
            assert("css"@.len() != "woff2"@.len());
            reveal_strlit("woff");
            assert("css"@.len() != "woff"@.len());
            reveal_strlit("ttf");
            assert("css"@[0] != "ttf"@[0]);
            reveal_strlit("otf");
            assert("css"@[0] != "otf"@[0]);
            reveal_strlit("eot");
            assert("css"@[0] != "eot"@[0]);
        },
        FormatOpts::Txt => {
            reveal_strlit("txt");
            reveal_strlit("jpg");
            assert("txt"@[0] != "jpg"@[0]);
            reveal_strlit("webp");
            assert("txt"@.len() != "webp"@.len());
            reveal_strlit("png");
            assert("txt"@[0] != "png"@[0]);
            reveal_strlit("gif");
            assert("txt"@[0] != "gif"@[0]);
            reveal_strlit("svg");
            assert("txt"@[0] != "svg"@[0]);
            reveal_strlit("avif");
            assert("txt"@.len() != "avif"@.len());
            reveal_strlit("pdf");
            assert("txt"@[0] != "pdf"@[0]);
            reveal_strlit("js");
            assert("txt"@.len() != "js"@.len());
            reveal_strlit("woff2");
            assert("txt"@.len() != "woff2"@.len());
            reveal_strlit("woff");
            assert("txt"@.len() != "woff"@.len());
            reveal_strlit("ttf");
            assert("txt"@[1] != "ttf"@[1]);
            reveal_strlit("otf");
            assert("txt"@[0] != "otf"@[0]);
            reveal_strlit("eot");
            assert("txt"@[0] != "eot"@[0]);
            reveal_strlit("css");
            assert("txt"@[0] != "css"@[0]);
        },
        FormatOpts::Mp4 => {
            reveal_strlit("mp4");
            reveal_strlit("jpg");
            assert("mp4"@[0] != "jpg"@[0]);
            reveal_strlit("webp");
            assert("mp4"@.len() != "webp"@.len());
            reveal_strlit("png");
            assert("mp4"@[0] != "png"@[0]);
            reveal_strlit("gif");
            assert("mp4"@[0] != "gif"@[0]);
            reveal_strlit("svg");
            assert("mp4"@[0] != "svg"@[0]);
            reveal_strlit("avif");
            assert("mp4"@.len() != "avif"@.len());
            reveal_strlit("pdf");
            assert("mp4"@[0] != "pdf"@[0]);
            reveal_strlit("js");
            assert("mp4"@.len() != "js"@.len());
            reveal_strlit("woff2");
            assert("mp4"@.len() != "woff2"@.len());
            reveal_strlit("woff");
            assert("mp4"@.len() != "woff"@.len());
            reveal_strlit("ttf");
            assert("mp4"@[0] != "ttf"@[0]);
            reveal_strlit("otf");
            assert("mp4"@[0] != "otf"@[0]);
            reveal_strlit("eot");
            assert("mp4"@[0] != "eot"@[0]);
            reveal_strlit("css");
            assert("mp4"@[0] != "css"@[0]);
            reveal_strlit("txt");
            assert("mp4"@[0] != "txt"@[0]);
        },
        FormatOpts::Webm => {
            reveal_strlit("webm");
            reveal_strlit("jpg");
            assert("webm"@.len() != "jpg"@.len());
            reveal_strlit("webp");
            assert("webm"@[3] != "webp"@[3]);
            reveal_strlit("png");
            assert("webm"@.len() != "png"@.len());
            reveal_strlit("gif");
            assert("webm"@.len() != "gif"@.len());
            reveal_strlit("svg");
            assert("webm"@.len() != "svg"@.len());
            reveal_strlit("avif");
            assert("webm"@[0] != "avif"@[0]);
            reveal_strlit("pdf");
            assert("webm"@.len() != "pdf"@.len());
            reveal_strlit("js");
            assert("webm"@.len() != "js"@.len());
            reveal_strlit("woff2");
            assert("webm"@.len() != "woff2"@.len());
            reveal_strlit("woff");
            assert("webm"@[1] != "woff"@[1]);
            reveal_strlit("ttf");
            assert("webm"@.len() != "ttf"@.len());
            reveal_strlit("otf");
            assert("webm"@.len() != "otf"@.len());
            reveal_strlit("eot");
            assert("webm"@.len() != "eot"@.len());
            reveal_strlit("css");
            assert("webm"@.len() != "css"@.len());
            reveal_strlit("txt");
            assert("webm"@.len() != "txt"@.len());
            reveal_strlit("mp4");
            assert("webm"@.len() != "mp4"@.len());
        },
        FormatOpts::Mov => {
            reveal_strlit("mov");
            reveal_strlit("jpg");
            assert("mov"@[0] != "jpg"@[0]);
            reveal_strlit("webp");
            assert("mov"@.len() != "webp"@.len());
            reveal_strlit("png");
            assert("mov"@[0] != "png"@[0]);
            reveal_strlit("gif");
            assert("mov"@[0] != "gif"@[0]);
            reveal_strlit("svg");
            assert("mov"@[0] != "svg"@[0]);
            reveal_strlit("avif");
            assert("mov"@.len() != "avif"@.len());
            reveal_strlit("pdf");
            assert("mov"@[0] != "pdf"@[0]);
            reveal_strlit("js");
            assert("mov"@.len() != "js"@.len());
            reveal_strlit("woff2");
            assert("mov"@.len() != "woff2"@.len());
            reveal_strlit("woff");
            assert("mov"@.len() != "woff"@.len());
            reveal_strlit("ttf");
            assert("mov"@[0] != "ttf"@[0]);
            reveal_strlit("otf");
            assert("mov"@[0] != "otf"@[0]);
            reveal_strlit("eot");
            assert("mov"@[0] != "eot"@[0]);
            reveal_strlit("css");
            assert("mov"@[0] != "css"@[0]);
            reveal_strlit("txt");
            assert("mov"@[0] != "txt"@[0]);
            reveal_strlit("mp4");
            assert("mov"@[1] != "mp4"@[1]);
            reveal_strlit("webm");
            assert("mov"@.len() != "webm"@.len());
        },
        FormatOpts::Swf => {
            reveal_strlit("swf");
            reveal_strlit("jpg");
            assert("swf"@[0] != "jpg"@[0]);
            reveal_strlit("webp");
            assert("swf"@.len() != "webp"@.len());
            reveal_strlit("png");
            assert("swf"@[0] != "png"@[0]);
            reveal_strlit("gif");
            assert("swf"@[0] != "gif"@[0]);
            reveal_strlit("svg");
            assert("swf"@[1] != "svg"@[1]);
            reveal_strlit("avif");
            assert("swf"@.len() != "avif"@.len());
            reveal_strlit("pdf");
            assert("swf"@[0] != "pdf"@[0]);
            reveal_strlit("js");
            assert("swf"@.len() != "js"@.len());
            reveal_strlit("woff2");
            assert("swf"@.len() != "woff2"@.len());
            reveal_strlit("woff");
            assert("swf"@.len() != "woff"@.len());
            reveal_strlit("ttf");
            assert("swf"@[0] != "ttf"@[0]);
            reveal_strlit("otf");
            assert("swf"@[0] != "otf"@[0]);
            reveal_strlit("eot");
            assert("swf"@[0] != "eot"@[0]);
            reveal_strlit("css");
            assert("swf"@[0] != "css"@[0]);
            reveal_strlit("txt");
            assert("swf"@[0] != "txt"@[0]);
            reveal_strlit("mp4");
            assert("swf"@[0] != "mp4"@[0]);
            reveal_strlit("webm");
            assert("swf"@.len() != "webm"@.len());
            reveal_strlit("mov");
            assert("swf"@[0] != "mov"@[0]);
        },
        FormatOpts::Ts => {
            reveal_strlit("ts");
            reveal_strlit("jpg");
            assert("ts"@.len() != "jpg"@.len());
            reveal_strlit("webp");
            assert("ts"@.len() != "webp"@.len());
            reveal_strlit("png");
            assert("ts"@.len() != "png"@.len());
            reveal_strlit("gif");
            assert("ts"@.len() != "gif"@.len());
            reveal_strlit("svg");
            assert("ts"@.len() != "svg"@.len());
            reveal_strlit("avif");
            assert("ts"@.len() != "avif"@.len());
            reveal_strlit("pdf");
            assert("ts"@.len() != "pdf"@.len());
            reveal_strlit("js");
            assert("ts"@[0] != "js"@[0]);
            reveal_strlit("woff2");
            assert("ts"@.len() != "woff2"@.len());
            reveal_strlit("woff");
            assert("ts"@.len() != "woff"@.len());
            reveal_strlit("ttf");
            assert("ts"@.len() != "ttf"@.len());
            reveal_strlit("otf");
            assert("ts"@.len() != "otf"@.len());
            reveal_strlit("eot");
            assert("ts"@.len() != "eot"@.len());
            reveal_strlit("css");
            assert("ts"@.len() != "css"@.len());
            reveal_strlit("txt");
            assert("ts"@.len() != "txt"@.len());
            reveal_strlit("mp4");
            assert("ts"@.len() != "mp4"@.len());
            reveal_strlit("webm");
            assert("ts"@.len() != "webm"@.len());
            reveal_strlit("mov");
            assert("ts"@.len() != "mov"@.len());
            reveal_strlit("swf");
            assert("ts"@.len() != "swf"@.len());
        },
        FormatOpts::M3u8 => {
            reveal_strlit("m3u8");
            reveal_strlit("jpg");
            assert("m3u8"@.len() != "jpg"@.len());
            reveal_strlit("webp");
            assert("m3u8"@[0] != "webp"@[0]);
            reveal_strlit("png");
            assert("m3u8"@.len() != "png"@.len());
            reveal_strlit("gif");
            assert("m3u8"@.len() != "gif"@.len());
            reveal_strlit("svg");
            assert("m3u8"@.len() != "svg"@.len());
            reveal_strlit("avif");
            assert("m3u8"@[0] != "avif"@[0]);
            reveal_strlit("pdf");
            assert("m3u8"@.len() != "pdf"@.len());
            reveal_strlit("js");
            assert("m3u8"@.len() != "js"@.len());
            reveal_strlit("woff2");
            assert("m3u8"@.len() != "woff2"@.len());
            reveal_strlit("woff");
            assert("m3u8"@[0] != "woff"@[0]);
            reveal_strlit("ttf");
            assert("m3u8"@.len() != "ttf"@.len());
            reveal_strlit("otf");
            assert("m3u8"@.len() != "otf"@.len());
            reveal_strlit("eot");
            assert("m3u8"@.len() != "eot"@.len());
            reveal_strlit("css");
            assert("m3u8"@.len() != "css"@.len());
            reveal_strlit("txt");
            assert("m3u8"@.len() != "txt"@.len());
            reveal_strlit("mp4");
            assert("m3u8"@.len() != "mp4"@.len());
            reveal_strlit("webm");
            assert("m3u8"@[0] != "webm"@[0]);
            reveal_strlit("mov");
            assert("m3u8"@.len() != "mov"@.len());
            reveal_strlit("swf");
            assert("m3u8"@.len() != "swf"@.len());
            reveal_strlit("ts");
            assert("m3u8"@.len() != "ts"@.len());
        },
        FormatOpts::Ico => {
            reveal_strlit("ico");
            reveal_strlit("jpg");
            assert("ico"@[0] != "jpg"@[0]);
            reveal_strlit("webp");
            assert("ico"@.len() != "webp"@.len());
            reveal_strlit("png");
            assert("ico"@[0] != "png"@[0]);
            reveal_strlit("gif");
            assert("ico"@[0] != "gif"@[0]);
            reveal_strlit("svg");
            assert("ico"@[0] != "svg"@[0]);
            reveal_strlit("avif");
            assert("ico"@.len() != "avif"@.len());
            reveal_strlit("pdf");
            assert("ico"@[0] != "pdf"@[0]);
            reveal_strlit("js");
            assert("ico"@.len() != "js"@.len());
            reveal_strlit("woff2");
            assert("ico"@.len() != "woff2"@.len());
            reveal_strlit("woff");
            assert("ico"@.len() != "woff"@.len());
            reveal_strlit("ttf");
            assert("ico"@[0] != "ttf"@[0]);
            reveal_strlit("otf");
            assert("ico"@[0] != "otf"@[0]);
            reveal_strlit("eot");
            assert("ico"@[0] != "eot"@[0]);
            reveal_strlit("css");
            assert("ico"@[0] != "css"@[0]);
            reveal_strlit("txt");
            assert("ico"@[0] != "txt"@[0]);
            reveal_strlit("mp4");
            assert("ico"@[0] != "mp4"@[0]);
            reveal_strlit("webm");
            assert("ico"@.len() != "webm"@.len());
            reveal_strlit("mov");
            assert("ico"@[0] != "mov"@[0]);
            reveal_strlit("swf");
            assert("ico"@[0] != "swf"@[0]);
            reveal_strlit("ts");
            assert("ico"@.len() != "ts"@.len());
            reveal_strlit("m3u8");
            assert("ico"@.len() != "m3u8"@.len());
        },
    }
}

/// The equality query of every format reads back as that format: the name
/// stands between `format="` and the closing quote, with nothing else around.
pub proof fn lemma_format_eq_query_round_trip(f: FormatOpts)
    ensures
        parse_format_eq_query(format_eq_query(f)) == Some(f),
{
    let head = "format=\""@;
    let q = format_eq_query(f);
    reveal_strlit("format=\"");
    reveal_strlit("\"");
    assert(q.subrange(0, head.len() as int) =~= head);
    assert(q.subrange(head.len() as int, q.len() - 1) =~= f.name());
    assert(q.last() == '"');
    lemma_parse_name(f);
}

/// Each format of `s` in single quotes, in order, with `sep` between two of them.
pub open spec fn joined(s: Seq<FormatOpts>, sep: Seq<char>) -> Seq<char>
    decreases s.len(),
{
    if s.len() == 0 {
        Seq::empty()
    } else if s.len() == 1 {
        quoted(s[0])
    } else {
        joined(s.drop_last(), sep) + sep + quoted(s.last())
    }
}

/// A format's name in single quotes.
pub open spec fn quoted(f: FormatOpts) -> Seq<char> {
    "'"@ + f.name() + "'"@
}

/// The query that asks for one format.
pub open spec fn format_eq_query(f: FormatOpts) -> Seq<char> {
    "format=\""@ + f.name() + "\""@
}

/// The query that asks for any of the formats of `s`.
pub open spec fn format_in_query(s: Seq<FormatOpts>) -> Seq<char> {
    "format IN ["@ + joined(s, ","@) + "]"@
}

/// The query that asks for any format outside those of `s`.
pub open spec fn format_not_in_query(s: Seq<FormatOpts>) -> Seq<char> {
    "format NOT IN ["@ + joined(s, ","@) + "]"@
}

/// The query that asks for a file by its exact name, taken literally.
pub open spec fn filename_eq_query(name: Seq<char>) -> Seq<char> {
    "name=\""@ + name + "\""@
}

/// The query parameters of a search for the query `q`.
pub open spec fn search_params(q: Seq<char>) -> Seq<(Seq<char>, Seq<char>)> {
    seq![("searchQuery"@, q)]
}

/// The views of a list of key/value pairs.
pub open spec fn pairs_view(s: Seq<(String, String)>) -> Seq<(Seq<char>, Seq<char>)> {
    s.map_values(|p: (String, String)| (p.0@, p.1@))
}

/// Quotes each format and joins them with `separator`, keeping their order.
pub fn join(range: &[FormatOpts], separator: &str) -> (r: String)
    ensures
        r@ == joined(range@, separator@),
{
    let mut r = String::new();
    let mut i: usize = 0;
    while i < range.len()
        invariant
            i <= range@.len(),
            r@ == joined(range@.subrange(0, i as int), separator@),
        decreases range@.len() - i,
    {
        let mut q = String::from_str("'");
        q.append(range[i].as_str());
        q.append("'");
        if i > 0 {
            r.append(separator);
        }
        r.append(q.as_str());
        proof {
            let next = range@.subrange(0, i + 1);
            assert(next.drop_last() =~= range@.subrange(0, i as int));
            if i == 0 {
                assert(r@ =~= quoted(range@[0]));
            }
        }
        i = i + 1;
    }
    assert(range@.subrange(0, i as int) =~= range@);
    r
}

/// The URL that `base` with the query pairs `params` appended form-encoded
/// makes, or `None` where `base` is no URL.
pub uninterp spec fn url_with_params(
    base: Seq<char>,
    params: Seq<(Seq<char>, Seq<char>)>,
) -> Option<Seq<char>>;

/// Relies on `url::Url::parse_with_params` (re-exported by reqwest): it parses
/// `base` and appends each pair, form-encoded, to the query; what it gives
/// depends on its arguments alone.
#[verifier::external_body]
fn parse_with_params(base: &str, params: &Vec<(String, String)>) -> (r: Option<String>)
    ensures
        url_with_params(base@, pairs_view(params@)) == (match r {
            Some(u) => Some(u@),
            None => None::<Seq<char>>,
        }),
{
    reqwest::Url::parse_with_params(base, params.iter()).ok().map(String::from)
}

/// A search request: the query parameters of a GET on the files listing.
pub struct RequestCriteria {
    params: Vec<(String, String)>,
}

impl View for RequestCriteria {
    type V = Seq<(Seq<char>, Seq<char>)>;

    closed spec fn view(&self) -> Seq<(Seq<char>, Seq<char>)> {
        pairs_view(self.params@)
    }
}

impl RequestCriteria {
    /// A request with the given query parameters, in order.
    pub fn new(query_params: &[(String, String)]) -> (r: Self)
        ensures
            r@ == pairs_view(query_params@),
    {
        let mut params: Vec<(String, String)> = Vec::new();
        let mut i: usize = 0;
        while i < query_params.len()
            invariant
                i <= query_params@.len(),
                params@.len() == i,
                forall|j: int|
                    0 <= j < i ==> (#[trigger] params@[j]).0@ == query_params@[j].0@
                        && params@[j].1@ == query_params@[j].1@,
            decreases query_params@.len() - i,
        {
            let k = query_params[i].0.clone();
            let v = query_params[i].1.clone();
            params.push((k, v));
            i = i + 1;
        }
        let r = RequestCriteria { params };
        assert(r@ =~= pairs_view(query_params@));
        r
    }

    /// A request whose only parameter is the search query `q`.
    fn search(q: String) -> (r: Self)
        ensures
            r@ == search_params(q@),
    {
        let params = vec![(String::from_str("searchQuery"), q)];
        let r = RequestCriteria { params };
        assert(r@ =~= search_params(q@));
        r
    }

    /// The URL of the GET on the files listing that carries this request.
    pub fn url(&self) -> (r: Option<String>)
        ensures
            url_with_params(FILES_ENDPOINT@, self@) == (match r {
                Some(u) => Some(u@),
                None => None::<Seq<char>>,
            }),
    {
        parse_with_params(FILES_ENDPOINT, &self.params)
    }

    /// The query parameters, in order.
    pub fn params(&self) -> (r: &Vec<(String, String)>)
        ensures
            pairs_view(r@) == self@,
    {
        &self.params
    }
}

impl FormatOpts {
    /// A search for the files of the format `right`.
    pub fn eq(right: &FormatOpts) -> (r: RequestCriteria)
        ensures
            r@ == search_params(format_eq_query(*right)),
    {
        let mut q = String::from_str("format=\"");
        q.append(right.as_str());
        q.append("\"");
        RequestCriteria::search(q)
    }

    /// A search for the files of any format of `range`; none is built for an
    /// empty `range`.
    pub fn between(range: &[FormatOpts]) -> (r: Result<RequestCriteria, Error>)
        ensures
            range@.len() == 0 ==> r matches Err(Error::EmptyCriteria),
            range@.len() > 0 ==> (r matches Ok(c) && c@ == search_params(format_in_query(range@))),
    {
        if range.len() == 0 {
            return Err(Error::EmptyCriteria);
        }
        let mut q = String::from_str("format IN [");
        let list = join(range, ",");
        q.append(list.as_str());
        q.append("]");
        Ok(RequestCriteria::search(q))
    }

    /// A search for the files of any format outside `range`; none is built for
    /// an empty `range`.
    pub fn not_between(range: &[FormatOpts]) -> (r: Result<RequestCriteria, Error>)
        ensures
            range@.len() == 0 ==> r matches Err(Error::EmptyCriteria),
            range@.len() > 0 ==> (r matches Ok(c) && c@ == search_params(
                format_not_in_query(range@),
            )),
    {
        if range.len() == 0 {
            return Err(Error::EmptyCriteria);
        }
        let mut q = String::from_str("format NOT IN [");
        let list = join(range, ",");
        q.append(list.as_str());
        q.append("]");
        Ok(RequestCriteria::search(q))
    }
}

/// The exact name of a file, extension included.
pub struct Filename(String);

impl View for Filename {
    type V = Seq<char>;

    closed spec fn view(&self) -> Seq<char> {
        self.0@
    }
}

impl Filename {
    pub fn new(name: &str) -> (r: Self)
        ensures
            r@ == name@,
    {
        Filename(name.to_owned())
    }

    /// The name, as it was given.
    pub fn as_str(&self) -> (r: &str)
        ensures
            r@ == self@,
    {
        self.0.as_str()
    }

    /// A search for the files named exactly `right`.
    pub fn eq(right: &Filename) -> (r: RequestCriteria)
        ensures
            r@ == search_params(filename_eq_query(right@)),
    {
        let mut q = String::from_str("name=\"");
        q.append(right.0.as_str());
        q.append("\"");
        RequestCriteria::search(q)
    }
}

} // verus!
