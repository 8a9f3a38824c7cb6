use vstd::prelude::*;

verus! {

/// Where a quote was found.
#[derive(Debug, Copy, Clone)]
pub enum Origin {
    AZQuotesQuote(u32),
    AZQuotesAuthor(&'static str),
    GoodReads,
    JournalDev,
    VimStartify,
    StormConsultancy(u8),
}

/// The five sites that quotes come from; each origin belongs to exactly one.
#[derive(Debug, Copy, Clone, PartialEq, Eq, Structural)]
pub enum Family {
    AZQuotes,
    GoodReads,
    JournalDev,
    VimStartify,
    StormConsultancy,
}

impl Origin {
    /// The site that this origin points into.
    pub open spec fn family_of(self) -> Family {
        match self {
            Origin::AZQuotesQuote(_) => Family::AZQuotes,
            Origin::AZQuotesAuthor(_) => Family::AZQuotes,
            Origin::GoodReads => Family::GoodReads,
            Origin::JournalDev => Family::JournalDev,
            Origin::VimStartify => Family::VimStartify,
            Origin::StormConsultancy(_) => Family::StormConsultancy,
        }
    }

    /// The link of this origin, as text.
    pub open spec fn link(self) -> Seq<char> {
        match self {
            Origin::AZQuotesQuote(n) => "https://www.azquotes.com/quote/"@ + decimal(n as nat),
            Origin::AZQuotesAuthor(name) => "https://www.azquotes.com/author/"@ + name@,
            Origin::GoodReads => "https://www.goodreads.com/quotes/tag/programming"@,
            Origin::JournalDev =>
                "https://www.journaldev.com/240/my-25-favorite-programming-quotes-that-are-funny-too"@,
            Origin::VimStartify =>
                "https://github.com/mhinz/vim-startify/blob/master/autoload/startify/fortune.vim"@,
            Origin::StormConsultancy(n) => "http://quotes.stormconsultancy.co.uk/quotes/"@
                + decimal(n as nat),
        }
    }

    /// The site that this origin points into.
    pub fn family(&self) -> (r: Family)
        ensures
            r == self.family_of(),
    {
        match self {
            Origin::AZQuotesQuote(_) => Family::AZQuotes,
            Origin::AZQuotesAuthor(_) => Family::AZQuotes,
            Origin::GoodReads => Family::GoodReads,
            Origin::JournalDev => Family::JournalDev,
            Origin::VimStartify => Family::VimStartify,
            Origin::StormConsultancy(_) => Family::StormConsultancy,
        }
    }

    /// Whether the quote comes from AZ Quotes, through a quote page or an author page.
    pub fn is_azquotes(&self) -> (r: bool)
        ensures
            r == (*self is AZQuotesQuote || *self is AZQuotesAuthor),
            r == (self.family_of() == Family::AZQuotes),
    {
        matches!(*self, Origin::AZQuotesQuote(_) | Origin::AZQuotesAuthor(_))
    }

    /// Whether the quote comes from an AZ Quotes quote page.
    pub fn is_azquotesquote(&self) -> (r: bool)
        ensures
            r == (*self is AZQuotesQuote),
    {
        matches!(*self, Origin::AZQuotesQuote(_))
    }

    /// Whether the quote comes from an AZ Quotes author page.
    pub fn is_azquotesauthor(&self) -> (r: bool)
        ensures
            r == (*self is AZQuotesAuthor),
    {
        matches!(*self, Origin::AZQuotesAuthor(_))
    }

    /// Whether the quote comes from goodreads.
    pub fn is_goodreads(&self) -> (r: bool)
        ensures
            r == (*self is GoodReads),
            r == (self.family_of() == Family::GoodReads),
    {
        matches!(*self, Origin::GoodReads)
    }

    /// Whether the quote comes from Journal Dev.
    pub fn is_journaldev(&self) -> (r: bool)
        ensures
            r == (*self is JournalDev),
            r == (self.family_of() == Family::JournalDev),
    {
        matches!(*self, Origin::JournalDev)
    }

    /// Whether the quote comes from Vim Startify.
    pub fn is_vimstartify(&self) -> (r: bool)
        ensures
            r == (*self is VimStartify),
            r == (self.family_of() == Family::VimStartify),
    {
        matches!(*self, Origin::VimStartify)
    }

    /// Whether the quote comes from Storm Consultancy.
    pub fn is_stormconsultancy(&self) -> (r: bool)
        ensures
            r == (*self is StormConsultancy),
            r == (self.family_of() == Family::StormConsultancy),
    {
        matches!(*self, Origin::StormConsultancy(_))
    }

    /// The link of this origin: the site's address, with the page number or
    /// author name where the origin carries one.
    pub fn url(&self) -> (r: String)
        ensures
            r@ == self.link(),
    {
        match *self {
            Origin::AZQuotesQuote(n) => {
                let mut s = String::from_str("https://www.azquotes.com/quote/");
                push_decimal(&mut s, n);
                s
            },
            Origin::AZQuotesAuthor(name) => {
                let mut s = String::from_str("https://www.azquotes.com/author/");
                s.append(name);
                s
            },
            Origin::GoodReads => String::from_str("https://www.goodreads.com/quotes/tag/programming"),
            Origin::JournalDev => String::from_str(
                "https://www.journaldev.com/240/my-25-favorite-programming-quotes-that-are-funny-too",
            ),
            Origin::VimStartify => String::from_str(
                "https://github.com/mhinz/vim-startify/blob/master/autoload/startify/fortune.vim",
            ),
            Origin::StormConsultancy(n) => {
                let mut s = String::from_str("http://quotes.stormconsultancy.co.uk/quotes/");
                push_decimal(&mut s, n as u32);
                s
            },
        }
    }
}

/// The character of a decimal digit.
pub open spec fn digit_char(d: nat) -> char
    recommends
        d < 10,
{
    if d == 0 {
        '0'
    } else if d == 1 {
        '1'
    } else if d == 2 {
        '2'
    } else if d == 3 {
        '3'
    } else if d == 4 {
        '4'
    } else if d == 5 {
        '5'
    } else if d == 6 {
        '6'
    } else if d == 7 {
        '7'
    } else if d == 8 {
        '8'
    } else {
        '9'
    }
}

/// `n` written in decimal, without leading zeros.
pub open spec fn decimal(n: nat) -> Seq<char>
    decreases n,
{
    if n < 10 {
        seq![digit_char(n)]
    } else {
        decimal(n / 10).push(digit_char(n % 10))
    }
}

fn digit_str(d: u32) -> (r: &'static str)
    requires
        d < 10,
    ensures
        r@ == seq![digit_char(d as nat)],
{
    proof {
        reveal_strlit("0");
        reveal_strlit("1");
        reveal_strlit("2");
        reveal_strlit("3");
        reveal_strlit("4");
        reveal_strlit("5");
        reveal_strlit("6");
        reveal_strlit("7");
        reveal_strlit("8");
        reveal_strlit("9");
    }
    if d == 0 {
        "0"
    } else if d == 1 {
        "1"
    } else if d == 2 {
        "2"
    } else if d == 3 {
        "3"
    } else if d == 4 {
        "4"
    } else if d == 5 {
        "5"
    } else if d == 6 {
        "6"
    } else if d == 7 {
        "7"
    } else if d == 8 {
        "8"
    } else {
        "9"
    }
}

/// Appends `n` in decimal to `out`.
fn push_decimal(out: &mut String, n: u32)
    ensures
        final(out)@ == old(out)@ + decimal(n as nat),
    decreases n,
{
    if n >= 10 {
        push_decimal(out, n / 10);
    }
    out.append(digit_str(n % 10));
    proof {
        if n >= 10 {
            assert(decimal(n as nat) == decimal((n / 10) as nat).push(digit_char((n % 10) as nat)));
        }
    }
}

/// The family that an origin name given by a user stands for. Each family
/// has four accepted spellings; any other text stands for none.
pub open spec fn alias_family(s: Seq<char>) -> Option<Family> {
    if s == "azquotes"@ || s == "azquote"@ || s == "AZQuote"@ || s == "AZQuotes"@ {
        Some(Family::AZQuotes)
    } else if s == "goodreads"@ || s == "good reads"@ || s == "Good Reads"@ || s
        == "GoodReads"@ {
        Some(Family::GoodReads)
    } else if s == "journaldev"@ || s == "journal dev"@ || s == "Journaldev"@ || s
        == "Journal Dev"@ {
        Some(Family::JournalDev)
    } else if s == "vimstartify"@ || s == "vim startify"@ || s == "Vim Startify"@ || s
        == "Vimstartify"@ {
        Some(Family::VimStartify)
    } else if s == "stormconsultancy"@ || s == "storm consultancy"@ || s
        == "Storm Consultancy"@ || s == "Stormconsultancy"@ {
        Some(Family::StormConsultancy)
    } else {
        None
    }
}

/// Whether two strings hold the same characters.
pub fn same_text(a: &str, b: &str) -> (r: bool)
    ensures
        r == (a@ == b@),
{
    let x = a.to_owned();
    let y = b.to_owned();
    x == y
}

/// Resolves an origin name given by a user to the family it stands for.
pub fn parse_family(s: &str) -> (r: Option<Family>)
    ensures
        r == alias_family(s@),
{
    if same_text(s, "azquotes") || same_text(s, "azquote") || same_text(s, "AZQuote")
        || same_text(s, "AZQuotes") {
        Some(Family::AZQuotes)
    } else if same_text(s, "goodreads") || same_text(s, "good reads") || same_text(
        s,
        "Good Reads",
    ) || same_text(s, "GoodReads") {
        Some(Family::GoodReads)
    } else if same_text(s, "journaldev") || same_text(s, "journal dev") || same_text(
        s,
        "Journaldev",
    ) || same_text(s, "Journal Dev") {
        Some(Family::JournalDev)
    } else if same_text(s, "vimstartify") || same_text(s, "vim startify") || same_text(
        s,
        "Vim Startify",
    ) || same_text(s, "Vimstartify") {
        Some(Family::VimStartify)
    } else if same_text(s, "stormconsultancy") || same_text(s, "storm consultancy")
        || same_text(s, "Storm Consultancy") || same_text(s, "Stormconsultancy") {
        Some(Family::StormConsultancy)
    } else {
        None
    }
}

} // verus!
