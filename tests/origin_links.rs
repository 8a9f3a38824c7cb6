use pquote::origin::{parse_family, same_text};
use pquote::{Family, Origin};

#[test]
fn links_render_payload() {
    assert_eq!(Origin::AZQuotesQuote(755_276).url(), "https://www.azquotes.com/quote/755276");
    assert_eq!(Origin::AZQuotesQuote(0).url(), "https://www.azquotes.com/quote/0");
    assert_eq!(
        Origin::AZQuotesAuthor("20979-Linus_Torvalds").url(),
        "https://www.azquotes.com/author/20979-Linus_Torvalds"
    );
    assert_eq!(Origin::StormConsultancy(12).url(), "http://quotes.stormconsultancy.co.uk/quotes/12");
    assert_eq!(Origin::StormConsultancy(255).url(), "http://quotes.stormconsultancy.co.uk/quotes/255");
    assert_eq!(Origin::GoodReads.url(), "https://www.goodreads.com/quotes/tag/programming");
    assert_eq!(
        Origin::JournalDev.url(),
        "https://www.journaldev.com/240/my-25-favorite-programming-quotes-that-are-funny-too"
    );
    assert_eq!(
        Origin::VimStartify.url(),
        "https://github.com/mhinz/vim-startify/blob/master/autoload/startify/fortune.vim"
    );
}

#[test]
fn each_origin_in_one_family() {
    let all = [
        Origin::AZQuotesQuote(1),
        Origin::AZQuotesAuthor("x"),
        Origin::GoodReads,
        Origin::JournalDev,
        Origin::VimStartify,
        Origin::StormConsultancy(1),
    ];
    for o in all.iter() {
        let n = [o.is_azquotes(), o.is_goodreads(), o.is_journaldev(), o.is_vimstartify(), o.is_stormconsultancy()]
            .iter()
            .filter(|b| **b)
            .count();
        assert_eq!(n, 1);
    }
    assert!(all[0].is_azquotesquote() && !all[0].is_azquotesauthor());
    assert!(all[1].is_azquotesauthor() && !all[1].is_azquotesquote());
    assert_eq!(all[1].family(), Family::AZQuotes);
    assert_eq!(all[5].family(), Family::StormConsultancy);
}

#[test]
fn spellings_resolve_to_one_family() {
    for s in ["azquotes", "azquote", "AZQuote", "AZQuotes"].iter() {
        assert_eq!(parse_family(s), Some(Family::AZQuotes));
    }
    for s in ["goodreads", "good reads", "Good Reads", "GoodReads"].iter() {
        assert_eq!(parse_family(s), Some(Family::GoodReads));
    }
    for s in ["journaldev", "journal dev", "Journaldev", "Journal Dev"].iter() {
        assert_eq!(parse_family(s), Some(Family::JournalDev));
    }
    for s in ["vimstartify", "vim startify", "Vim Startify", "Vimstartify"].iter() {
        assert_eq!(parse_family(s), Some(Family::VimStartify));
    }
    for s in ["stormconsultancy", "storm consultancy", "Storm Consultancy", "Stormconsultancy"].iter() {
        assert_eq!(parse_family(s), Some(Family::StormConsultancy));
    }
    assert_eq!(parse_family("nowhere"), None);
    assert_eq!(parse_family(""), None);
}

#[test]
fn same_text_compares_characters() {
    assert!(same_text("Rob Pike", "Rob Pike"));
    assert!(!same_text("Rob Pike", "rob pike"));
    assert!(!same_text("Rob", "Rob Pike"));
}
