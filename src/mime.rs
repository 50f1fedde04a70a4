use vstd::prelude::*;

verus! {

/// A media type for the allowed-uploads list of a bucket: a well-known type,
/// or any other `type/subtype` string (wildcards such as `image/*` included).
#[derive(Clone, Copy, Debug, PartialEq, Eq)]
pub enum MimeType<'a> {
    Custom(&'a str),
    AAC,
    AbiWord,
    APNG,
    Archive,
    AVIF,
    AVI,
    AmazonKindle,
    BinaryData,
    BMP,
    BZip,
    BZip2,
    CDAudio,
    CShellScript,
    CSS,
    CSV,
    DOC,
    DOCX,
    EOT,
    EPUB,
    GZip,
    GIF,
    HTML,
    Icon,
    ICalendar,
    JAR,
    JPEG,
    JavaScript,
    JSON,
    JSONLD,
    MIDI,
    JavaScriptModule,
    MP3,
    MP4,
    MPEG,
    AppleInstaller,
    ODP,
    ODS,
    ODT,
    OggAudio,
    OggVideo,
    Ogg,
    OpusAudio,
    OTF,
    PNG,
    PDF,
    PHP,
    PPT,
    PPTX,
    RAR,
    RTF,
    ShellScript,
    SVG,
    TAR,
    TIFF,
    MPEGTransportStream,
    TTF,
    PlainText,
    Visio,
    WAV,
    WEBMAudio,
    WEBMVideo,
    WEBP,
    WOFF,
    WOFF2,
    XHTML,
    XLS,
    XLSX,
    XML,
    XUL,
    ZIP,
    ThreeGPP,
    ThreeGPP2,
    SevenZip,
}

/// `s` is a `type/subtype` string: one `/`, with text on both sides of it.
pub open spec fn is_type_subtype(s: Seq<char>) -> bool {
    exists|i: int|
        #![trigger s[i]]
        0 < i < s.len() - 1 && s[i] == '/' && forall|j: int|
            0 <= j < s.len() && j != i ==> s[j] != '/'
}

impl<'a> MimeType<'a> {
    /// The media type string of this value.
    pub open spec fn spec_str(&self) -> Seq<char> {
        match *self {
            MimeType::Custom(s) => s@,
            MimeType::AAC => "audio/aac"@,
            MimeType::AbiWord => "application/x-abiword"@,
            MimeType::APNG => "image/apng"@,
            MimeType::Archive => "application/x-freearc"@,
            MimeType::AVIF => "image/avif"@,
            MimeType::AVI => "video/x-msvideo"@,
            MimeType::AmazonKindle => "application/vnd.amazon.ebook"@,
            MimeType::BinaryData => "application/octet-stream"@,
            MimeType::BMP => "image/bmp"@,
            MimeType::BZip => "application/x-bzip"@,
            MimeType::BZip2 => "application/x-bzip2"@,
            MimeType::CDAudio => "application/x-cdf"@,
            MimeType::CShellScript => "application/x-csh"@,
            MimeType::CSS => "text/css"@,
            MimeType::CSV => "text/csv"@,
            MimeType::DOC => "application/msword"@,
            MimeType::DOCX => "application/vnd.openxmlformats-officedocument.wordprocessingml.document"@,
            MimeType::EOT => "application/vnd.ms-fontobject"@,
            MimeType::EPUB => "application/epub+zip"@,
            MimeType::GZip => "application/gzip"@,
            MimeType::GIF => "image/gif"@,
            MimeType::HTML => "text/html"@,
            MimeType::Icon => "image/vnd.microsoft.icon"@,
            MimeType::ICalendar => "text/calendar"@,
            MimeType::JAR => "application/java-archive"@,
            MimeType::JPEG => "image/jpeg"@,
            MimeType::JavaScript => "text/javascript"@,
            MimeType::JSON => "application/json"@,
            MimeType::JSONLD => "application/ld+json"@,
            MimeType::MIDI => "audio/midi"@,
            MimeType::JavaScriptModule => "text/javascript"@,
            MimeType::MP3 => "audio/mpeg"@,
            MimeType::MP4 => "video/mp4"@,
            MimeType::MPEG => "video/mpeg"@,
            MimeType::AppleInstaller => "application/vnd.apple.installer+xml"@,
            MimeType::ODP => "application/vnd.oasis.opendocument.presentation"@,
            MimeType::ODS => "application/vnd.oasis.opendocument.spreadsheet"@,
            MimeType::ODT => "application/vnd.oasis.opendocument.text"@,
            MimeType::OggAudio => "audio/ogg"@,
            MimeType::OggVideo => "video/ogg"@,
            MimeType::Ogg => "application/ogg"@,
            MimeType::OpusAudio => "audio/ogg"@,
            MimeType::OTF => "font/otf"@,
            MimeType::PNG => "image/png"@,
            MimeType::PDF => "application/pdf"@,
            MimeType::PHP => "application/x-httpd-php"@,
            MimeType::PPT => "application/vnd.ms-powerpoint"@,
            MimeType::PPTX => "application/vnd.openxmlformats-officedocument.presentationml.presentation"@,
            MimeType::RAR => "application/vnd.rar"@,
            MimeType::RTF => "application/rtf"@,
            MimeType::ShellScript => "application/x-sh"@,
            MimeType::SVG => "image/svg+xml"@,
            MimeType::TAR => "application/x-tar"@,
            MimeType::TIFF => "image/tiff"@,
            MimeType::MPEGTransportStream => "video/mp2t"@,
            MimeType::TTF => "font/ttf"@,
            MimeType::PlainText => "text/plain"@,
            MimeType::Visio => "application/vnd.visio"@,
            MimeType::WAV => "audio/wav"@,
            MimeType::WEBMAudio => "audio/webm"@,
            MimeType::WEBMVideo => "video/webm"@,
            MimeType::WEBP => "image/webp"@,
            MimeType::WOFF => "font/woff"@,
            MimeType::WOFF2 => "font/woff2"@,
            MimeType::XHTML => "application/xhtml+xml"@,
            MimeType::XLS => "application/vnd.ms-excel"@,
            MimeType::XLSX => "application/vnd.openxmlformats-officedocument.spreadsheetml.sheet"@,
            MimeType::XML => "application/xml"@,
            MimeType::XUL => "application/vnd.mozilla.xul+xml"@,
            MimeType::ZIP => "application/zip"@,
            MimeType::ThreeGPP => "video/3gpp"@,
            MimeType::ThreeGPP2 => "video/3gpp2"@,
            MimeType::SevenZip => "application/x-7z-compressed"@,
        }
    }

    pub fn as_str(&self) -> (r: &'a str)
        ensures
            r@ == self.spec_str(),
    {
        match *self {
            MimeType::Custom(s) => s,
            MimeType::AAC => "audio/aac",
            MimeType::AbiWord => "application/x-abiword",
            MimeType::APNG => "image/apng",
            MimeType::Archive => "application/x-freearc",
            MimeType::AVIF => "image/avif",
            MimeType::AVI => "video/x-msvideo",
            MimeType::AmazonKindle => "application/vnd.amazon.ebook",
            MimeType::BinaryData => "application/octet-stream",
            MimeType::BMP => "image/bmp",
            MimeType::BZip => "application/x-bzip",
            MimeType::BZip2 => "application/x-bzip2",
            MimeType::CDAudio => "application/x-cdf",
            MimeType::CShellScript => "application/x-csh",
            MimeType::CSS => "text/css",
            MimeType::CSV => "text/csv",
            MimeType::DOC => "application/msword",
            MimeType::DOCX => "application/vnd.openxmlformats-officedocument.wordprocessingml.document",
            MimeType::EOT => "application/vnd.ms-fontobject",
            MimeType::EPUB => "application/epub+zip",
            MimeType::GZip => "application/gzip",
            MimeType::GIF => "image/gif",
            MimeType::HTML => "text/html",
            MimeType::Icon => "image/vnd.microsoft.icon",
            MimeType::ICalendar => "text/calendar",
            MimeType::JAR => "application/java-archive",
            MimeType::JPEG => "image/jpeg",
            MimeType::JavaScript => "text/javascript",
            MimeType::JSON => "application/json",
            MimeType::JSONLD => "application/ld+json",
            MimeType::MIDI => "audio/midi",
            MimeType::JavaScriptModule => "text/javascript",
            MimeType::MP3 => "audio/mpeg",
            MimeType::MP4 => "video/mp4",
            MimeType::MPEG => "video/mpeg",
            MimeType::AppleInstaller => "application/vnd.apple.installer+xml",
            MimeType::ODP => "application/vnd.oasis.opendocument.presentation",
            MimeType::ODS => "application/vnd.oasis.opendocument.spreadsheet",
            MimeType::ODT => "application/vnd.oasis.opendocument.text",
            MimeType::OggAudio => "audio/ogg",
            MimeType::OggVideo => "video/ogg",
            MimeType::Ogg => "application/ogg",
            MimeType::OpusAudio => "audio/ogg",
            MimeType::OTF => "font/otf",
            MimeType::PNG => "image/png",
            MimeType::PDF => "application/pdf",
            MimeType::PHP => "application/x-httpd-php",
            MimeType::PPT => "application/vnd.ms-powerpoint",
            MimeType::PPTX => "application/vnd.openxmlformats-officedocument.presentationml.presentation",
            MimeType::RAR => "application/vnd.rar",
            MimeType::RTF => "application/rtf",
            MimeType::ShellScript => "application/x-sh",
            MimeType::SVG => "image/svg+xml",
            MimeType::TAR => "application/x-tar",
            MimeType::TIFF => "image/tiff",
            MimeType::MPEGTransportStream => "video/mp2t",
            MimeType::TTF => "font/ttf",
            MimeType::PlainText => "text/plain",
            MimeType::Visio => "application/vnd.visio",
            MimeType::WAV => "audio/wav",
            MimeType::WEBMAudio => "audio/webm",
            MimeType::WEBMVideo => "video/webm",
            MimeType::WEBP => "image/webp",
            MimeType::WOFF => "font/woff",
            MimeType::WOFF2 => "font/woff2",
            MimeType::XHTML => "application/xhtml+xml",
            MimeType::XLS => "application/vnd.ms-excel",
            MimeType::XLSX => "application/vnd.openxmlformats-officedocument.spreadsheetml.sheet",
            MimeType::XML => "application/xml",
            MimeType::XUL => "application/vnd.mozilla.xul+xml",
            MimeType::ZIP => "application/zip",
            MimeType::ThreeGPP => "video/3gpp",
            MimeType::ThreeGPP2 => "video/3gpp2",
            MimeType::SevenZip => "application/x-7z-compressed",
        }
    }
}

/// Every well-known media type names a `type/subtype`, and a custom one is
/// exactly the text it was made from.
#[verifier::rlimit(50)]
pub proof fn lemma_mime_type_well_formed(m: MimeType)
    ensures
        m is Custom ==> m.spec_str() == m->Custom_0@,
        !(m is Custom) ==> is_type_subtype(m.spec_str()),
{
    match m {
        MimeType::Custom(_) => {},
        MimeType::AAC => {
            reveal_strlit("audio/aac");
            assert("audio/aac"@[5] == '/');
        },
        MimeType::AbiWord => {
            reveal_strlit("application/x-abiword");
            assert("application/x-abiword"@[11] == '/');
        },
        MimeType::APNG => {
            reveal_strlit("image/apng");
            assert("image/apng"@[5] == '/');
        },
        MimeType::Archive => {
            reveal_strlit("application/x-freearc");
            assert("application/x-freearc"@[11] == '/');
        },
        MimeType::AVIF => {
            reveal_strlit("image/avif");
            assert("image/avif"@[5] == '/');
        },
        MimeType::AVI => {
            reveal_strlit("video/x-msvideo");
            assert("video/x-msvideo"@[5] == '/');
        },
        MimeType::AmazonKindle => {
            reveal_strlit("application/vnd.amazon.ebook");
            assert("application/vnd.amazon.ebook"@[11] == '/');
        },
        MimeType::BinaryData => {
            reveal_strlit("application/octet-stream");
            assert("application/octet-stream"@[11] == '/');
        },
        MimeType::BMP => {
            reveal_strlit("image/bmp");
            assert("image/bmp"@[5] == '/');
        },
        MimeType::BZip => {
            reveal_strlit("application/x-bzip");
            assert("application/x-bzip"@[11] == '/');
        },
        MimeType::BZip2 => {
            reveal_strlit("application/x-bzip2");
            assert("application/x-bzip2"@[11] == '/');
        },
        MimeType::CDAudio => {
            reveal_strlit("application/x-cdf");
            assert("application/x-cdf"@[11] == '/');
        },
        MimeType::CShellScript => {
            reveal_strlit("application/x-csh");
            assert("application/x-csh"@[11] == '/');
        },
        MimeType::CSS => {
            reveal_strlit("text/css");
            assert("text/css"@[4] == '/');
        },
        MimeType::CSV => {
            reveal_strlit("text/csv");
            assert("text/csv"@[4] == '/');
        },
        MimeType::DOC => {
            reveal_strlit("application/msword");
            assert("application/msword"@[11] == '/');
        },
        MimeType::DOCX => {
            reveal_strlit("application/vnd.openxmlformats-officedocument.wordprocessingml.document");
            assert("application/vnd.openxmlformats-officedocument.wordprocessingml.document"@[11] == '/');
        },
        MimeType::EOT => {
            reveal_strlit("application/vnd.ms-fontobject");
            assert("application/vnd.ms-fontobject"@[11] == '/');
        },
        MimeType::EPUB => {
            reveal_strlit("application/epub+zip");
            assert("application/epub+zip"@[11] == '/');
        },
        MimeType::GZip => {
            reveal_strlit("application/gzip");
            assert("application/gzip"@[11] == '/');
        },
        MimeType::GIF => {
            reveal_strlit("image/gif");
            assert("image/gif"@[5] == '/');
        },
        MimeType::HTML => {
            reveal_strlit("text/html");
            assert("text/html"@[4] == '/');
        },
        MimeType::Icon => {
            reveal_strlit("image/vnd.microsoft.icon");
            assert("image/vnd.microsoft.icon"@[5] == '/');
        },
        MimeType::ICalendar => {
            reveal_strlit("text/calendar");
            assert("text/calendar"@[4] == '/');
        },
        MimeType::JAR => {
            reveal_strlit("application/java-archive");
            assert("application/java-archive"@[11] == '/');
        },
        MimeType::JPEG => {
            reveal_strlit("image/jpeg");
            assert("image/jpeg"@[5] == '/');
        },
        MimeType::JavaScript => {
            reveal_strlit("text/javascript");
            assert("text/javascript"@[4] == '/');
        },
        MimeType::JSON => {
            reveal_strlit("application/json");
            assert("application/json"@[11] == '/');
        },
        MimeType::JSONLD => {
            reveal_strlit("application/ld+json");
            assert("application/ld+json"@[11] == '/');
        },
        MimeType::MIDI => {
            reveal_strlit("audio/midi");
            assert("audio/midi"@[5] == '/');
        },
        MimeType::JavaScriptModule => {
            reveal_strlit("text/javascript");
            assert("text/javascript"@[4] == '/');
        },
        MimeType::MP3 => {
            reveal_strlit("audio/mpeg");
            assert("audio/mpeg"@[5] == '/');
        },
        MimeType::MP4 => {
            reveal_strlit("video/mp4");
            assert("video/mp4"@[5] == '/');
        },
        MimeType::MPEG => {
            reveal_strlit("video/mpeg");
            assert("video/mpeg"@[5] == '/');
        },
        MimeType::AppleInstaller => {
            reveal_strlit("application/vnd.apple.installer+xml");
            assert("application/vnd.apple.installer+xml"@[11] == '/');
        },
        MimeType::ODP => {
            reveal_strlit("application/vnd.oasis.opendocument.presentation");
            assert("application/vnd.oasis.opendocument.presentation"@[11] == '/');
        },
        MimeType::ODS => {
            reveal_strlit("application/vnd.oasis.opendocument.spreadsheet");
            assert("application/vnd.oasis.opendocument.spreadsheet"@[11] == '/');
        },
        MimeType::ODT => {
            reveal_strlit("application/vnd.oasis.opendocument.text");
            assert("application/vnd.oasis.opendocument.text"@[11] == '/');
        },
        MimeType::OggAudio => {
            reveal_strlit("audio/ogg");
            assert("audio/ogg"@[5] == '/');
        },
        MimeType::OggVideo => {
            reveal_strlit("video/ogg");
            assert("video/ogg"@[5] == '/');
        },
        MimeType::Ogg => {
            reveal_strlit("application/ogg");
            assert("application/ogg"@[11] == '/');
        },
        MimeType::OpusAudio => {
            reveal_strlit("audio/ogg");
            assert("audio/ogg"@[5] == '/');
        },
        MimeType::OTF => {
            reveal_strlit("font/otf");
            assert("font/otf"@[4] == '/');
        },
        MimeType::PNG => {
            reveal_strlit("image/png");
            assert("image/png"@[5] == '/');
        },
        MimeType::PDF => {
            reveal_strlit("application/pdf");
            assert("application/pdf"@[11] == '/');
        },
        MimeType::PHP => {
            reveal_strlit("application/x-httpd-php");
            assert("application/x-httpd-php"@[11] == '/');
        },
        MimeType::PPT => {
            reveal_strlit("application/vnd.ms-powerpoint");
            assert("application/vnd.ms-powerpoint"@[11] == '/');
        },
        MimeType::PPTX => {
            reveal_strlit("application/vnd.openxmlformats-officedocument.presentationml.presentation");
            assert("application/vnd.openxmlformats-officedocument.presentationml.presentation"@[11] == '/');
        },
        MimeType::RAR => {
            reveal_strlit("application/vnd.rar");
            assert("application/vnd.rar"@[11] == '/');
        },
        MimeType::RTF => {
            reveal_strlit("application/rtf");
            assert("application/rtf"@[11] == '/');
        },
        MimeType::ShellScript => {
            reveal_strlit("application/x-sh");
            assert("application/x-sh"@[11] == '/');
        },
        MimeType::SVG => {
            reveal_strlit("image/svg+xml");
            assert("image/svg+xml"@[5] == '/');
        },
        MimeType::TAR => {
            reveal_strlit("application/x-tar");
            assert("application/x-tar"@[11] == '/');
        },
        MimeType::TIFF => {
            reveal_strlit("image/tiff");
            assert("image/tiff"@[5] == '/');
        },
        MimeType::MPEGTransportStream => {
            reveal_strlit("video/mp2t");
            assert("video/mp2t"@[5] == '/');
        },
        MimeType::TTF => {
            reveal_strlit("font/ttf");
            assert("font/ttf"@[4] == '/');
        },
        MimeType::PlainText => {
            reveal_strlit("text/plain");
            assert("text/plain"@[4] == '/');
        },
        MimeType::Visio => {
            reveal_strlit("application/vnd.visio");
            assert("application/vnd.visio"@[11] == '/');
        },
        MimeType::WAV => {
            reveal_strlit("audio/wav");
            assert("audio/wav"@[5] == '/');
        },
        MimeType::WEBMAudio => {
            reveal_strlit("audio/webm");
            assert("audio/webm"@[5] == '/');
        },
        MimeType::WEBMVideo => {
            reveal_strlit("video/webm");
            assert("video/webm"@[5] == '/');
        },
        MimeType::WEBP => {
            reveal_strlit("image/webp");
            assert("image/webp"@[5] == '/');
        },
        MimeType::WOFF => {
            reveal_strlit("font/woff");
            assert("font/woff"@[4] == '/');
        },
        MimeType::WOFF2 => {
            reveal_strlit("font/woff2");
            assert("font/woff2"@[4] == '/');
        },
        MimeType::XHTML => {
            reveal_strlit("application/xhtml+xml");
            assert("application/xhtml+xml"@[11] == '/');
        },
        MimeType::XLS => {
            reveal_strlit("application/vnd.ms-excel");
            assert("application/vnd.ms-excel"@[11] == '/');
        },
        MimeType::XLSX => {
            reveal_strlit("application/vnd.openxmlformats-officedocument.spreadsheetml.sheet");
            assert("application/vnd.openxmlformats-officedocument.spreadsheetml.sheet"@[11] == '/');
        },
        MimeType::XML => {
            reveal_strlit("application/xml");
            assert("application/xml"@[11] == '/');
        },
        MimeType::XUL => {
            reveal_strlit("application/vnd.mozilla.xul+xml");
            assert("application/vnd.mozilla.xul+xml"@[11] == '/');
        },
        MimeType::ZIP => {
            reveal_strlit("application/zip");
            assert("application/zip"@[11] == '/');
        },
        MimeType::ThreeGPP => {
            reveal_strlit("video/3gpp");
            assert("video/3gpp"@[5] == '/');
        },
        MimeType::ThreeGPP2 => {
            reveal_strlit("video/3gpp2");
            assert("video/3gpp2"@[5] == '/');
        },
        MimeType::SevenZip => {
            reveal_strlit("application/x-7z-compressed");
            assert("application/x-7z-compressed"@[11] == '/');
        },
    }
}

} // verus!
