use crate::origin::Origin;
use crate::quote::{descending_from, Quote};
use vstd::prelude::*;

verus! {

/// The number of quotes in the built-in collection.
pub const CATALOG_SIZE: u32 = 323;

/// Appends one record, whose id continues the countdown from the catalog size.
fn append_record(v: &mut Vec<Quote>, author: &'static str, id: u32, quote: &'static str, permalink: Origin)
    requires
        descending_from(old(v)@, CATALOG_SIZE as int),
        id + old(v)@.len() == CATALOG_SIZE,
    ensures
        final(v)@ == old(v)@.push(Quote { author, id, quote, permalink }),
        descending_from(final(v)@, CATALOG_SIZE as int),
{
    v.push(Quote { author, id, quote, permalink });
}

/// The records of the built-in collection, in catalog order.
pub open spec fn builtin_records() -> Seq<Quote> {
    part_1() + part_2() + part_3() + part_4() + part_5() + part_6() + part_7() + part_8() + part_9()
}

/// The records with ids 323 down to 284.
pub open spec fn part_1() -> Seq<Quote> {
    seq![
        Quote {
            author: "Linus Torvalds",
            id: 323,
            quote: "I think Leopard is a much better system [[than Windows Vista]] but OS X in some ways is actually worse than Windows to program for. Their file system is complete and utter crap, which is scary.",
            permalink: Origin::AZQuotesQuote(755_276),
        },
        Quote {
            author: "Linus Torvalds",
            id: 322,
            quote: "Hmmm, completely a-religious - atheist. I find that people seem to think religion brings morals and appreciation of nature. I actually think it detracts from both.",
            permalink: Origin::AZQuotesQuote(755_276),
        },
        Quote {
            author: "Linus Torvalds",
            id: 321,
            quote: "On the internet nobody can hear you being subtle.",
            permalink: Origin::AZQuotesQuote(755_276),
        },
        Quote {
            author: "Linus Torvalds",
            id: 320,
            quote: "Only religious fanatics and totalitarian states equate morality with legality.",
            permalink: Origin::AZQuotesQuote(755_276),
        },
        Quote {
            author: "Linus Torvalds",
            id: 319,
            quote: "Security people are often the black-and-white kind of people that I can't stand. I think the OpenBSD crowd is a bunch of masturbating monkeys, in that they make such a big deal about concentrating on security to the point where they pretty much admit that nothing else matters to them.",
            permalink: Origin::AZQuotesQuote(755_276),
        },
        Quote {
            author: "Linus Torvalds",
            id: 318,
            quote: "The complaints I've had is that GitHub as a development platform - making commits, pull requests, keeping track of issues etc - doesn't work very well at all. It's not even close, not for something like the kernel. It's much too limited.",
            permalink: Origin::AZQuotesQuote(755_276),
        },
        Quote {
            author: "Linus Torvalds",
            id: 317,
            quote: "There are lots of Linux users who don't care how the kernel works but only want to use it is not only a tribute to how good Linux is, but it also brings up issues that I would never have thought of otherwise.",
            permalink: Origin::AZQuotesQuote(755_276),
        },
        Quote {
            author: "Linus Torvalds",
            id: 316,
            quote: "I get the biggest enjoyment from the random and unexpected places. Linux on cellphones or refrigerators, just because it's so not what I envisioned it. Or on supercomputers.",
            permalink: Origin::AZQuotesQuote(755_276),
        },
        Quote {
            author: "Linus Torvalds",
            id: 315,
            quote: "In many cases the user interface to a program is the most important part for a commercial company: whether the programs works correctly or not seems to be secondary.",
            permalink: Origin::AZQuotesQuote(755_276),
        },
        Quote {
            author: "Linus Torvalds",
            id: 314,
            quote: "It's what I call \"mental masturbation\", when you engage is some pointless intellectual exercise that has no possible meaning.",
            permalink: Origin::AZQuotesQuote(755_276),
        },
        Quote {
            author: "Linus Torvalds",
            id: 313,
            quote: "Most of the good programmers do programming not because they expect to get paid or get adulation by the public, but because it is fun to program.",
            permalink: Origin::AZQuotesQuote(755_276),
        },
        Quote {
            author: "Linus Torvalds",
            id: 312,
            quote: "Intelligence is the ability to avoid doing work, yet getting the work done.",
            permalink: Origin::AZQuotesQuote(755_276),
        },
        Quote {
            author: "Linus Torvalds",
            id: 311,
            quote: "If you think penguins are fat and waddle, you have never been attacked by one running at you in excess of 100 miles per hour.",
            permalink: Origin::AZQuotesQuote(755_276),
        },
        Quote {
            author: "Linus Torvalds",
            id: 310,
            quote: "Software is like sex: It's better when it's free.",
            permalink: Origin::AZQuotesQuote(755_276),
        },
        Quote {
            author: "Linus Torvalds",
            id: 309,
            quote: "In short: just say NO TO DRUGS, and maybe you won't end up like the Hurd people.",
            permalink: Origin::AZQuotesQuote(755_276),
        },
        Quote {
            author: "Linus Torvalds",
            id: 308,
            quote: "Programmers are in the enviable position of not only getting to do what they want to, but because the end result is so important they get paid to do it. There are other professions like that, but not that many.",
            permalink: Origin::AZQuotesQuote(755_276),
        },
        Quote {
            author: "Linus Torvalds",
            id: 307,
            quote: "To be a nemesis, you have to actively try to destroy something, don't you? Really, I'm not out to destroy Microsoft. That will just be a completely unintentional side effect.",
            permalink: Origin::AZQuotesQuote(755_276),
        },
        Quote {
            author: "Linus Torvalds",
            id: 306,
            quote: "UNIX has a philosophy, it has 25 years of history behind it, and most importantly, it has a clean core. It strives for something - some kind of beauty. And that's really what struck me as a programmer. Operating systems that normal home users are used to, such as DOS and Windows, didn't have any way of life. Nobody tried to design Windows - it just grew in random directions without any kind of thought behind it. [...] I don't think Microsoft is evil in itself; I just think that they make really crappy operating systems.",
            permalink: Origin::AZQuotesQuote(755_276),
        },
        Quote {
            author: "Linus Torvalds",
            id: 305,
            quote: "When you say \"I wrote a program that crashed Windows,\" people just stare at you blankly and say \"Hey, I got those with the system, for free.",
            permalink: Origin::AZQuotesQuote(755_276),
        },
        Quote {
            author: "Linus Torvalds",
            id: 304,
            quote: "I started Linux as a desktop operating system. And it's the only area where Linux hasn't completely taken over. That just annoys the hell out of me.",
            permalink: Origin::AZQuotesQuote(755_276),
        },
        Quote {
            author: "Linus Torvalds",
            id: 303,
            quote: "Don't hurry your code. Make sure it works well and is well designed. don't worry about timing.",
            permalink: Origin::AZQuotesQuote(755_276),
        },
        Quote {
            author: "Linus Torvalds",
            id: 302,
            quote: "C++ is a horrible language. It's made more horrible by the fact that a lot of substandard programmers use it, to the point where it's much much easier to generate total and utter crap with it.",
            permalink: Origin::AZQuotesQuote(755_276),
        },
        Quote {
            author: "Linus Torvalds",
            id: 301,
            quote: "Those that can, do. Those that can't, complain.",
            permalink: Origin::AZQuotesQuote(755_276),
        },
        Quote {
            author: "Linus Torvalds",
            id: 300,
            quote: "Backups are for wimps. Real men upload their data to an FTP site and have everyone else mirror it.",
            permalink: Origin::AZQuotesQuote(755_276),
        },
        Quote {
            author: "Linus Torvalds",
            id: 299,
            quote: "If Microsoft ever does applications for Linux it means I'vewon.",
            permalink: Origin::AZQuotesQuote(755_276),
        },
        Quote {
            author: "Linus Torvalds",
            id: 298,
            quote: "Modern PCs are horrible. ACPI is a complete design disaster in every way. But we're kind of stuck with it. If any Intel people are listening to this and you had anything to do with ACPI, shoot yourself now, before you reproduce.",
            permalink: Origin::AZQuotesQuote(755_276),
        },
        Quote {
            author: "Linus Torvalds",
            id: 297,
            quote: "Microsoft isn't evil, they just make really crappy operating systems.",
            permalink: Origin::AZQuotesQuote(755_276),
        },
        Quote {
            author: "Linus Torvalds",
            id: 296,
            quote: "Bad programmers worry about the code. Good programmers worry about data structures and their relationships.",
            permalink: Origin::AZQuotesQuote(755_276),
        },
        Quote {
            author: "Linus Torvalds",
            id: 295,
            quote: "Theory and practice sometimes clash. And when that happens, theory loses. Every single time.",
            permalink: Origin::AZQuotesQuote(755_276),
        },
        Quote {
            author: "Linus Torvalds",
            id: 294,
            quote: "A computer is like air conditioning - it becomes useless when you open Windows",
            permalink: Origin::AZQuotesQuote(755_276),
        },
        Quote {
            author: "Richard Stallman",
            id: 293,
            quote: "Proprietary software tends to have malicious features. The point is with a proprietary program, when the users dont have the source code, we can never tell. So you must consider every proprietary program as potential malware.",
            permalink: Origin::AZQuotesAuthor("13994-Richard_Stallman"),
        },
        Quote {
            author: "Richard Stallman",
            id: 292,
            quote: "Android is very different from the GNU/Linux operating system because it contains very little of GNU. Indeed, just about the only component in common between Android and GNU/Linux is Linux, the kernel.",
            permalink: Origin::AZQuotesAuthor("13994-Richard_Stallman"),
        },
        Quote {
            author: "Richard Stallman",
            id: 291,
            quote: "Programming is not a science. Programming is a craft.",
            permalink: Origin::AZQuotesAuthor("13994-Richard_Stallman"),
        },
        Quote {
            author: "Richard Stallman",
            id: 290,
            quote: "Giving the Linus Torvalds Award to the Free Software Foundation is a bit like giving the Han Solo Award to the Rebel Alliance.",
            permalink: Origin::AZQuotesAuthor("13994-Richard_Stallman"),
        },
        Quote {
            author: "Richard Stallman",
            id: 289,
            quote: "Sharing knowledge is the most fundamental act of friendship. Because it is a way you can give something without loosing something.",
            permalink: Origin::AZQuotesQuote(1_394_515),
        },
        Quote {
            author: "Frederick P. Brooks Jr., The Mythical Man-Month: Essays on Software Engineering",
            id: 288,
            quote: "Einstein repeatedly argued that there must be simplified explanations of nature, because God is not capricious or arbitrary. No such faith comforts the software engineer.",
            permalink: Origin::GoodReads,
        },
        Quote {
            author: "Gerry Geek, Ice Breakers for Project Managers: Jokes, Quotes, and Brainteasers",
            id: 287,
            quote: "A code is like love, it has created with clear intentions at the beginning, but it can get complicated.",
            permalink: Origin::GoodReads,
        },
        Quote {
            author: "Herbert Schildt, C++: The Complete Reference",
            id: 286,
            quote: "C gives the programmer what the programmer wants; few restrictions, few complaints... C++ maintains the original spirit of C, that the programmer not the language is in charge.",
            permalink: Origin::GoodReads,
        },
        Quote {
            author: "Richard Stallman",
            id: 285,
            quote: "With software there are only two possibilites: either the users control the programme or the programme controls the users. If the programme controls the users, and the developer controls the programme, then the programme is an instrument of unjust power",
            permalink: Origin::GoodReads,
        },
        Quote {
            author: "Dr. Hazem Ali",
            id: 284,
            quote: "The happiest moment i felt; is that moment when i realized my ability to create.",
            permalink: Origin::GoodReads,
        },
    ]
}

/// Appends the records of `part_1`.
fn push_part_1(v: &mut Vec<Quote>)
    requires
        descending_from(old(v)@, CATALOG_SIZE as int),
        old(v)@.len() == 0,
    ensures
        descending_from(final(v)@, CATALOG_SIZE as int),
        final(v)@ == old(v)@ + part_1(),
{
    let ghost start = v@;
    append_record(
        v,
        "Linus Torvalds",
        323,
        "I think Leopard is a much better system [[than Windows Vista]] but OS X in some ways is actually worse than Windows to program for. Their file system is complete and utter crap, which is scary.",
        Origin::AZQuotesQuote(755_276),
    );
    append_record(
        v,
        "Linus Torvalds",
        322,
        "Hmmm, completely a-religious - atheist. I find that people seem to think religion brings morals and appreciation of nature. I actually think it detracts from both.",
        Origin::AZQuotesQuote(755_276),
    );
    append_record(
        v,
        "Linus Torvalds",
        321,
        "On the internet nobody can hear you being subtle.",
        Origin::AZQuotesQuote(755_276),
    );
    append_record(
        v,
        "Linus Torvalds",
        320,
        "Only religious fanatics and totalitarian states equate morality with legality.",
        Origin::AZQuotesQuote(755_276),
    );
    append_record(
        v,
        "Linus Torvalds",
        319,
        "Security people are often the black-and-white kind of people that I can't stand. I think the OpenBSD crowd is a bunch of masturbating monkeys, in that they make such a big deal about concentrating on security to the point where they pretty much admit that nothing else matters to them.",
        Origin::AZQuotesQuote(755_276),
    );
    append_record(
        v,
        "Linus Torvalds",
        318,
        "The complaints I've had is that GitHub as a development platform - making commits, pull requests, keeping track of issues etc - doesn't work very well at all. It's not even close, not for something like the kernel. It's much too limited.",
        Origin::AZQuotesQuote(755_276),
    );
    append_record(
        v,
        "Linus Torvalds",
        317,
        "There are lots of Linux users who don't care how the kernel works but only want to use it is not only a tribute to how good Linux is, but it also brings up issues that I would never have thought of otherwise.",
        Origin::AZQuotesQuote(755_276),
    );
    append_record(
        v,
        "Linus Torvalds",
        316,
        "I get the biggest enjoyment from the random and unexpected places. Linux on cellphones or refrigerators, just because it's so not what I envisioned it. Or on supercomputers.",
        Origin::AZQuotesQuote(755_276),
    );
    append_record(
        v,
        "Linus Torvalds",
        315,
        "In many cases the user interface to a program is the most important part for a commercial company: whether the programs works correctly or not seems to be secondary.",
        Origin::AZQuotesQuote(755_276),
    );
    append_record(
        v,
        "Linus Torvalds",
        314,
        "It's what I call \"mental masturbation\", when you engage is some pointless intellectual exercise that has no possible meaning.",
        Origin::AZQuotesQuote(755_276),
    );
    append_record(
        v,
        "Linus Torvalds",
        313,
        "Most of the good programmers do programming not because they expect to get paid or get adulation by the public, but because it is fun to program.",
        Origin::AZQuotesQuote(755_276),
    );
    append_record(
        v,
        "Linus Torvalds",
        312,
        "Intelligence is the ability to avoid doing work, yet getting the work done.",
        Origin::AZQuotesQuote(755_276),
    );
    append_record(
        v,
        "Linus Torvalds",
        311,
        "If you think penguins are fat and waddle, you have never been attacked by one running at you in excess of 100 miles per hour.",
        Origin::AZQuotesQuote(755_276),
    );
    append_record(
        v,
        "Linus Torvalds",
        310,
        "Software is like sex: It's better when it's free.",
        Origin::AZQuotesQuote(755_276),
    );
    append_record(
        v,
        "Linus Torvalds",
        309,
        "In short: just say NO TO DRUGS, and maybe you won't end up like the Hurd people.",
        Origin::AZQuotesQuote(755_276),
    );
    append_record(
        v,
        "Linus Torvalds",
        308,
        "Programmers are in the enviable position of not only getting to do what they want to, but because the end result is so important they get paid to do it. There are other professions like that, but not that many.",
        Origin::AZQuotesQuote(755_276),
    );
    append_record(
        v,
        "Linus Torvalds",
        307,
        "To be a nemesis, you have to actively try to destroy something, don't you? Really, I'm not out to destroy Microsoft. That will just be a completely unintentional side effect.",
        Origin::AZQuotesQuote(755_276),
    );
    append_record(
        v,
        "Linus Torvalds",
        306,
        "UNIX has a philosophy, it has 25 years of history behind it, and most importantly, it has a clean core. It strives for something - some kind of beauty. And that's really what struck me as a programmer. Operating systems that normal home users are used to, such as DOS and Windows, didn't have any way of life. Nobody tried to design Windows - it just grew in random directions without any kind of thought behind it. [...] I don't think Microsoft is evil in itself; I just think that they make really crappy operating systems.",
        Origin::AZQuotesQuote(755_276),
    );
    append_record(
        v,
        "Linus Torvalds",
        305,
        "When you say \"I wrote a program that crashed Windows,\" people just stare at you blankly and say \"Hey, I got those with the system, for free.",
        Origin::AZQuotesQuote(755_276),
    );
    append_record(
        v,
        "Linus Torvalds",
        304,
        "I started Linux as a desktop operating system. And it's the only area where Linux hasn't completely taken over. That just annoys the hell out of me.",
        Origin::AZQuotesQuote(755_276),
    );
    append_record(
        v,
        "Linus Torvalds",
        303,
        "Don't hurry your code. Make sure it works well and is well designed. don't worry about timing.",
        Origin::AZQuotesQuote(755_276),
    );
    append_record(
        v,
        "Linus Torvalds",
        302,
        "C++ is a horrible language. It's made more horrible by the fact that a lot of substandard programmers use it, to the point where it's much much easier to generate total and utter crap with it.",
        Origin::AZQuotesQuote(755_276),
    );
    append_record(
        v,
        "Linus Torvalds",
        301,
        "Those that can, do. Those that can't, complain.",
        Origin::AZQuotesQuote(755_276),
    );
    append_record(
        v,
        "Linus Torvalds",
        300,
        "Backups are for wimps. Real men upload their data to an FTP site and have everyone else mirror it.",
        Origin::AZQuotesQuote(755_276),
    );
    append_record(
        v,
        "Linus Torvalds",
        299,
        "If Microsoft ever does applications for Linux it means I'vewon.",
        Origin::AZQuotesQuote(755_276),
    );
    append_record(
        v,
        "Linus Torvalds",
        298,
        "Modern PCs are horrible. ACPI is a complete design disaster in every way. But we're kind of stuck with it. If any Intel people are listening to this and you had anything to do with ACPI, shoot yourself now, before you reproduce.",
        Origin::AZQuotesQuote(755_276),
    );
    append_record(
        v,
        "Linus Torvalds",
        297,
        "Microsoft isn't evil, they just make really crappy operating systems.",
        Origin::AZQuotesQuote(755_276),
    );
    append_record(
        v,
        "Linus Torvalds",
        296,
        "Bad programmers worry about the code. Good programmers worry about data structures and their relationships.",
        Origin::AZQuotesQuote(755_276),
    );
    append_record(
        v,
        "Linus Torvalds",
        295,
        "Theory and practice sometimes clash. And when that happens, theory loses. Every single time.",
        Origin::AZQuotesQuote(755_276),
    );
    append_record(
        v,
        "Linus Torvalds",
        294,
        "A computer is like air conditioning - it becomes useless when you open Windows",
        Origin::AZQuotesQuote(755_276),
    );
    append_record(
        v,
        "Richard Stallman",
        293,
        "Proprietary software tends to have malicious features. The point is with a proprietary program, when the users dont have the source code, we can never tell. So you must consider every proprietary program as potential malware.",
        Origin::AZQuotesAuthor("13994-Richard_Stallman"),
    );
    append_record(
        v,
        "Richard Stallman",
        292,
        "Android is very different from the GNU/Linux operating system because it contains very little of GNU. Indeed, just about the only component in common between Android and GNU/Linux is Linux, the kernel.",
        Origin::AZQuotesAuthor("13994-Richard_Stallman"),
    );
    append_record(
        v,
        "Richard Stallman",
        291,
        "Programming is not a science. Programming is a craft.",
        Origin::AZQuotesAuthor("13994-Richard_Stallman"),
    );
    append_record(
        v,
        "Richard Stallman",
        290,
        "Giving the Linus Torvalds Award to the Free Software Foundation is a bit like giving the Han Solo Award to the Rebel Alliance.",
        Origin::AZQuotesAuthor("13994-Richard_Stallman"),
    );
    append_record(
        v,
        "Richard Stallman",
        289,
        "Sharing knowledge is the most fundamental act of friendship. Because it is a way you can give something without loosing something.",
        Origin::AZQuotesQuote(1_394_515),
    );
    append_record(
        v,
        "Frederick P. Brooks Jr., The Mythical Man-Month: Essays on Software Engineering",
        288,
        "Einstein repeatedly argued that there must be simplified explanations of nature, because God is not capricious or arbitrary. No such faith comforts the software engineer.",
        Origin::GoodReads,
    );
    append_record(
        v,
        "Gerry Geek, Ice Breakers for Project Managers: Jokes, Quotes, and Brainteasers",
        287,
        "A code is like love, it has created with clear intentions at the beginning, but it can get complicated.",
        Origin::GoodReads,
    );
    append_record(
        v,
        "Herbert Schildt, C++: The Complete Reference",
        286,
        "C gives the programmer what the programmer wants; few restrictions, few complaints... C++ maintains the original spirit of C, that the programmer not the language is in charge.",
        Origin::GoodReads,
    );
    append_record(
        v,
        "Richard Stallman",
        285,
        "With software there are only two possibilites: either the users control the programme or the programme controls the users. If the programme controls the users, and the developer controls the programme, then the programme is an instrument of unjust power",
        Origin::GoodReads,
    );
    append_record(
        v,
        "Dr. Hazem Ali",
        284,
        "The happiest moment i felt; is that moment when i realized my ability to create.",
        Origin::GoodReads,
    );
    assert(v@ =~= start + part_1());
}

/// The records with ids 283 down to 244.
pub open spec fn part_2() -> Seq<Quote> {
    seq![
        Quote {
            author: "Chris Pine, Learn to Program",
            id: 283,
            quote: "Programming isn't about what you know; it's about what you can figure out.",
            permalink: Origin::GoodReads,
        },
        Quote {
            author: "Marijn Haverbeke, Eloquent JavaScript: A Modern Introduction",
            id: 282,
            quote: "The main thing I want to show in this chapter is that there is no magic involved in building your own language. I've often felt that some human inventions were so immensely clever and complicated that I'd never be able to understand them. But with a little reading and tinkering, such things often turn out to be quite mundane.",
            permalink: Origin::GoodReads,
        },
        Quote {
            author: "Neal Ford, Functional Thinking",
            id: 281,
            quote: "The problem with a completely new programming paradigm isn't learning a new language. After all, everyone reading this has learned numerous computer languages language syntax is merely details. The tricky part is learning to think in a different way.",
            permalink: Origin::GoodReads,
        },
        Quote {
            author: "Andrew Edward Lucier, Awakenigma Allegory Anomalous",
            id: 280,
            quote: "Reality really relies on authoritatively regulating. Your absolute attention",
            permalink: Origin::GoodReads,
        },
        Quote {
            author: "Mokokoma Mokhonoana",
            id: 279,
            quote: "Most improved things can be improved.",
            permalink: Origin::GoodReads,
        },
        Quote {
            author: "Anthony T. Hincks",
            id: 278,
            quote: "Sometimes, I dream of becoming real, but I don't know if that is real, or just part of my programming.",
            permalink: Origin::GoodReads,
        },
        Quote {
            author: "Joe Armstrong",
            id: 277,
            quote: "The really good programmers spend a lot of time programming. I haven't seen very good programmers who don't spend a lot of time programming. If I don't program for two or three days, I need to do it. And you get better at it-you get quicker at it. The side effect of writing all this other stuff is that when you get to doing ordinary problems, you can do them very quickly.",
            permalink: Origin::GoodReads,
        },
        Quote {
            author: "Bartosz Milewski, Category Theory for Programmers",
            id: 276,
            quote: "The usual goal in the typing monkeys thought experiment is the production of the complete works of Shakespeare. Having a spell checker and a grammar checker in the loop would drastically increase the odds. The analog of a type checker would go even further by making sure that, once Romeo is declared a human being, he doesn't sprout leaves or trap photons in his powerful gravitational field.",
            permalink: Origin::GoodReads,
        },
        Quote {
            author: "Robert C. Martin, Agile Principles, Patterns, and Practices in C#",
            id: 275,
            quote: "Abstraction is the elimination of the irrelevant and the amplification of the essential.",
            permalink: Origin::GoodReads,
        },
        Quote {
            author: "Halgurd Hussein",
            id: 274,
            quote: "I am committed to push my branch to the master",
            permalink: Origin::GoodReads,
        },
        Quote {
            author: "John Drury Clark, Ignition!: An informal history of liquid rocket propellants",
            id: 273,
            quote: "And there is one disconcerting thing about working with a computer - it's likely to talk back to you. You make some tiny mistake in your FORTRAN language - putting a letter in the wrong column, say, or omitting a comma - and the 360 comes to a screeching halt and prints out rude remarks, like \"ILLEGAL FORMAT,\" or \"UNKNOWN PROBLEM,\" or, if the man who wrote the program was really feeling nasty that morning, \"WHAT'S THE MATTER STUPID? CAN'T YOU READ?\" Everyone who uses a computer frequently has had, from time to time, a mad desire to attack the precocious abacus with an axe.",
            permalink: Origin::GoodReads,
        },
        Quote {
            author: "Steve McConnell, Code Complete",
            id: 272,
            quote: "The big optimizations come from refining the high-level design, not the individual routines.",
            permalink: Origin::GoodReads,
        },
        Quote {
            author: "Joseph Rain, The Unfinished Book About Who We Are",
            id: 271,
            quote: "Along every step of our journey through life, our mind is being programmed. If we are not programming it ourselves, someone else is doing it to us.",
            permalink: Origin::GoodReads,
        },
        Quote {
            author: "Seymour Cray",
            id: 270,
            quote: "The trouble with programmers is that you can never tell what a programmer is doing until it's too late.",
            permalink: Origin::JournalDev,
        },
        Quote {
            author: "J. Osterhout",
            id: 269,
            quote: "The best performance improvement is the transition from the nonworking state to the working state.",
            permalink: Origin::JournalDev,
        },
        Quote {
            author: "Gordon Bell",
            id: 268,
            quote: "The cheapest, fastest, and most reliable components are those that aren't there.",
            permalink: Origin::JournalDev,
        },
        Quote {
            author: "Keith Braithwaite",
            id: 267,
            quote: "Itss a curious thing about our industry: not only do we not learn from our mistakes, but we also don't learn from our successes",
            permalink: Origin::JournalDev,
        },
        Quote {
            author: "Unknown",
            id: 266,
            quote: "Software undergoes beta testing shortly before it\u{2019}s released. Beta is Latin for \u{201c}still doesn\u{2019}t work.",
            permalink: Origin::JournalDev,
        },
        Quote {
            author: "Jeff Sickel",
            id: 265,
            quote: "Deleted code is debugged code.",
            permalink: Origin::JournalDev,
        },
        Quote {
            author: "Jessica Gaston",
            id: 264,
            quote: "One man's crappy software is another man's full-time job.",
            permalink: Origin::JournalDev,
        },
        Quote {
            author: "Unknown",
            id: 263,
            quote: "It's not a bug - it's an undocumented feature.",
            permalink: Origin::JournalDev,
        },
        Quote {
            author: "Unknown",
            id: 262,
            quote: "Ready, fire, aim: the fast approach to software development. Ready, aim, aim, aim, aim: the slow approach to software development",
            permalink: Origin::JournalDev,
        },
        Quote {
            author: "Alan J. Perlis",
            id: 261,
            quote: "There are two ways to write error-free programs; only the third one works.",
            permalink: Origin::JournalDev,
        },
        Quote {
            author: "Gerald Weinberg",
            id: 260,
            quote: "If builders built buildings the way programmers wrote programs, then the first woodpecker that came along would destroy civilization.",
            permalink: Origin::JournalDev,
        },
        Quote {
            author: "Oktal",
            id: 259,
            quote: "I think Microsoft named .Net so it wouldn\u{2019}t show up in a Unix directory listing.",
            permalink: Origin::JournalDev,
        },
        Quote {
            author: "Unknown",
            id: 258,
            quote: "The best method for accelerating a computer is the one that boosts it by 9.8 m/s2.",
            permalink: Origin::JournalDev,
        },
        Quote {
            author: "Ralph Johnson",
            id: 257,
            quote: "Before software can be reusable it first has to be usable",
            permalink: Origin::JournalDev,
        },
        Quote {
            author: "Louis Srygley",
            id: 256,
            quote: "Without requirements or design, programming is the art of adding bugs to an empty text file.",
            permalink: Origin::JournalDev,
        },
        Quote {
            author: "Unknown",
            id: 255,
            quote: "The best thing about a boolean is even if you are wrong, you are only off by a bit.",
            permalink: Origin::JournalDev,
        },
        Quote {
            author: "Steve Jobs",
            id: 254,
            quote: "Here's to the crazy ones, the misfits, the rebels, the troublemakers, the round pegs in the square holes... the ones who see things differently -- they're not fond of rules... You can quote them, disagree with them, glorify or vilify them, but the only thing you can't do is ignore them because they change things... they push the human race forward, and while some may see them as the crazy ones, we see genius, because the ones who are crazy enough to think that they can change the world, are the ones who do.",
            permalink: Origin::AZQuotesQuote(1_367_134),
        },
        Quote {
            author: "Bjarne Stroustrup",
            id: 253,
            quote: "And no, I'm not a walking C++ dictionary. I do not keep every technical detail in my head at all times. If I did that, I would be a much poorer programmer. I do keep the main points straight in my head most of the time, and I do know where to find the details when I need them.",
            permalink: Origin::AZQuotesQuote(1_367_134),
        },
        Quote {
            author: "Bjarne Stroustrup",
            id: 252,
            quote: "Certainly not every good program is object-oriented, and not every object-oriented program is good.",
            permalink: Origin::AZQuotesQuote(819_493),
        },
        Quote {
            author: "Bjarne Stroustrup",
            id: 251,
            quote: "Design and programming are human activities; forget that and all is lost.",
            permalink: Origin::AZQuotesQuote(673_772),
        },
        Quote {
            author: "Bjarne Stroustrup",
            id: 250,
            quote: "People who passionately want to believe that the world is basically simple react to this with a fury that goes beyond what I consider appropriate for discussing a programming language.",
            permalink: Origin::AZQuotesQuote(286_527),
        },
        Quote {
            author: "Bjarne Stroustrup (2000). \u{201c}The C++ Programming Language\u{201d}, Addison-Wesley Professional",
            id: 249,
            quote: "To many managers, getting rid of the arrogant, undisciplined, over-paid, technology-obsessed, improperly-dressed etc. programmers would appear to be a significant added benefit",
            permalink: Origin::AZQuotesQuote(1_338_293),
        },
        Quote {
            author: "Bjarne Stroustrup",
            id: 248,
            quote: "\"How to test?\" is a question that cannot be answered in general. \"When to test?\" however, does have a general answer: as early and as often as possible.",
            permalink: Origin::AZQuotesQuote(1_103_626),
        },
        Quote {
            author: "Bjarne Stroustrup",
            id: 247,
            quote: "Our civilization depends critically on software, and we have a dangerously low degree of professionalism in the computer fields",
            permalink: Origin::AZQuotesQuote(819_497),
        },
        Quote {
            author: "Bjarne Stroustrup",
            id: 246,
            quote: "There are more useful systems developed in languages deemed awful than in languages praised for being beautiful - many more.",
            permalink: Origin::AZQuotesQuote(1_103_627),
        },
        Quote {
            author: "\"The C++ Programming Language\". Book by Bjarne Stroustrup, October 1985.",
            id: 245,
            quote: "An organisation that treats its programmers as morons will soon have programmers that are willing and able to act like morons only.",
            permalink: Origin::AZQuotesQuote(673_771),
        },
        Quote {
            author: "Bjarne Stroustrup",
            id: 244,
            quote: "There is no one \"root of all evil\" in software development. Design is hard in many ways. People tend to underestimate the intellectual and practical difficulties involved in building a significant system involving software. It is not and will not be reduced to a simple mechanical \"assembly line\" process. Creativity, engineering principles, and evolutionary change are needed to create a satisfactory large system.",
            permalink: Origin::AZQuotesQuote(1_521_706),
        },
    ]
}

/// Appends the records of `part_2`.
fn push_part_2(v: &mut Vec<Quote>)
    requires
        descending_from(old(v)@, CATALOG_SIZE as int),
        old(v)@.len() == 40,
    ensures
        descending_from(final(v)@, CATALOG_SIZE as int),
        final(v)@ == old(v)@ + part_2(),
{
    let ghost start = v@;
    append_record(
        v,
        "Chris Pine, Learn to Program",
        283,
        "Programming isn't about what you know; it's about what you can figure out.",
        Origin::GoodReads,
    );
    append_record(
        v,
        "Marijn Haverbeke, Eloquent JavaScript: A Modern Introduction",
        282,
        "The main thing I want to show in this chapter is that there is no magic involved in building your own language. I've often felt that some human inventions were so immensely clever and complicated that I'd never be able to understand them. But with a little reading and tinkering, such things often turn out to be quite mundane.",
        Origin::GoodReads,
    );
    append_record(
        v,
        "Neal Ford, Functional Thinking",
        281,
        "The problem with a completely new programming paradigm isn't learning a new language. After all, everyone reading this has learned numerous computer languages language syntax is merely details. The tricky part is learning to think in a different way.",
        Origin::GoodReads,
    );
    append_record(
        v,
        "Andrew Edward Lucier, Awakenigma Allegory Anomalous",
        280,
        "Reality really relies on authoritatively regulating. Your absolute attention",
        Origin::GoodReads,
    );
    append_record(
        v,
        "Mokokoma Mokhonoana",
        279,
        "Most improved things can be improved.",
        Origin::GoodReads,
    );
    append_record(
        v,
        "Anthony T. Hincks",
        278,
        "Sometimes, I dream of becoming real, but I don't know if that is real, or just part of my programming.",
        Origin::GoodReads,
    );
    append_record(
        v,
        "Joe Armstrong",
        277,
        "The really good programmers spend a lot of time programming. I haven't seen very good programmers who don't spend a lot of time programming. If I don't program for two or three days, I need to do it. And you get better at it-you get quicker at it. The side effect of writing all this other stuff is that when you get to doing ordinary problems, you can do them very quickly.",
        Origin::GoodReads,
    );
    append_record(
        v,
        "Bartosz Milewski, Category Theory for Programmers",
        276,
        "The usual goal in the typing monkeys thought experiment is the production of the complete works of Shakespeare. Having a spell checker and a grammar checker in the loop would drastically increase the odds. The analog of a type checker would go even further by making sure that, once Romeo is declared a human being, he doesn't sprout leaves or trap photons in his powerful gravitational field.",
        Origin::GoodReads,
    );
    append_record(
        v,
        "Robert C. Martin, Agile Principles, Patterns, and Practices in C#",
        275,
        "Abstraction is the elimination of the irrelevant and the amplification of the essential.",
        Origin::GoodReads,
    );
    append_record(
        v,
        "Halgurd Hussein",
        274,
        "I am committed to push my branch to the master",
        Origin::GoodReads,
    );
    append_record(
        v,
        "John Drury Clark, Ignition!: An informal history of liquid rocket propellants",
        273,
        "And there is one disconcerting thing about working with a computer - it's likely to talk back to you. You make some tiny mistake in your FORTRAN language - putting a letter in the wrong column, say, or omitting a comma - and the 360 comes to a screeching halt and prints out rude remarks, like \"ILLEGAL FORMAT,\" or \"UNKNOWN PROBLEM,\" or, if the man who wrote the program was really feeling nasty that morning, \"WHAT'S THE MATTER STUPID? CAN'T YOU READ?\" Everyone who uses a computer frequently has had, from time to time, a mad desire to attack the precocious abacus with an axe.",
        Origin::GoodReads,
    );
    append_record(
        v,
        "Steve McConnell, Code Complete",
        272,
        "The big optimizations come from refining the high-level design, not the individual routines.",
        Origin::GoodReads,
    );
    append_record(
        v,
        "Joseph Rain, The Unfinished Book About Who We Are",
        271,
        "Along every step of our journey through life, our mind is being programmed. If we are not programming it ourselves, someone else is doing it to us.",
        Origin::GoodReads,
    );
    append_record(
        v,
        "Seymour Cray",
        270,
        "The trouble with programmers is that you can never tell what a programmer is doing until it's too late.",
        Origin::JournalDev,
    );
    append_record(
        v,
        "J. Osterhout",
        269,
        "The best performance improvement is the transition from the nonworking state to the working state.",
        Origin::JournalDev,
    );
    append_record(
        v,
        "Gordon Bell",
        268,
        "The cheapest, fastest, and most reliable components are those that aren't there.",
        Origin::JournalDev,
    );
    append_record(
        v,
        "Keith Braithwaite",
        267,
        "Itss a curious thing about our industry: not only do we not learn from our mistakes, but we also don't learn from our successes",
        Origin::JournalDev,
    );
    append_record(
        v,
        "Unknown",
        266,
        "Software undergoes beta testing shortly before it\u{2019}s released. Beta is Latin for \u{201c}still doesn\u{2019}t work.",
        Origin::JournalDev,
    );
    append_record(
        v,
        "Jeff Sickel",
        265,
        "Deleted code is debugged code.",
        Origin::JournalDev,
    );
    append_record(
        v,
        "Jessica Gaston",
        264,
        "One man's crappy software is another man's full-time job.",
        Origin::JournalDev,
    );
    append_record(
        v,
        "Unknown",
        263,
        "It's not a bug - it's an undocumented feature.",
        Origin::JournalDev,
    );
    append_record(
        v,
        "Unknown",
        262,
        "Ready, fire, aim: the fast approach to software development. Ready, aim, aim, aim, aim: the slow approach to software development",
        Origin::JournalDev,
    );
    append_record(
        v,
        "Alan J. Perlis",
        261,
        "There are two ways to write error-free programs; only the third one works.",
        Origin::JournalDev,
    );
    append_record(
        v,
        "Gerald Weinberg",
        260,
        "If builders built buildings the way programmers wrote programs, then the first woodpecker that came along would destroy civilization.",
        Origin::JournalDev,
    );
    append_record(
        v,
        "Oktal",
        259,
        "I think Microsoft named .Net so it wouldn\u{2019}t show up in a Unix directory listing.",
        Origin::JournalDev,
    );
    append_record(
        v,
        "Unknown",
        258,
        "The best method for accelerating a computer is the one that boosts it by 9.8 m/s2.",
        Origin::JournalDev,
    );
    append_record(
        v,
        "Ralph Johnson",
        257,
        "Before software can be reusable it first has to be usable",
        Origin::JournalDev,
    );
    append_record(
        v,
        "Louis Srygley",
        256,
        "Without requirements or design, programming is the art of adding bugs to an empty text file.",
        Origin::JournalDev,
    );
    append_record(
        v,
        "Unknown",
        255,
        "The best thing about a boolean is even if you are wrong, you are only off by a bit.",
        Origin::JournalDev,
    );
    append_record(
        v,
        "Steve Jobs",
        254,
        "Here's to the crazy ones, the misfits, the rebels, the troublemakers, the round pegs in the square holes... the ones who see things differently -- they're not fond of rules... You can quote them, disagree with them, glorify or vilify them, but the only thing you can't do is ignore them because they change things... they push the human race forward, and while some may see them as the crazy ones, we see genius, because the ones who are crazy enough to think that they can change the world, are the ones who do.",
        Origin::AZQuotesQuote(1_367_134),
    );
    append_record(
        v,
        "Bjarne Stroustrup",
        253,
        "And no, I'm not a walking C++ dictionary. I do not keep every technical detail in my head at all times. If I did that, I would be a much poorer programmer. I do keep the main points straight in my head most of the time, and I do know where to find the details when I need them.",
        Origin::AZQuotesQuote(1_367_134),
    );
    append_record(
        v,
        "Bjarne Stroustrup",
        252,
        "Certainly not every good program is object-oriented, and not every object-oriented program is good.",
        Origin::AZQuotesQuote(819_493),
    );
    append_record(
        v,
        "Bjarne Stroustrup",
        251,
        "Design and programming are human activities; forget that and all is lost.",
        Origin::AZQuotesQuote(673_772),
    );
    append_record(
        v,
        "Bjarne Stroustrup",
        250,
        "People who passionately want to believe that the world is basically simple react to this with a fury that goes beyond what I consider appropriate for discussing a programming language.",
        Origin::AZQuotesQuote(286_527),
    );
    append_record(
        v,
        "Bjarne Stroustrup (2000). \u{201c}The C++ Programming Language\u{201d}, Addison-Wesley Professional",
        249,
        "To many managers, getting rid of the arrogant, undisciplined, over-paid, technology-obsessed, improperly-dressed etc. programmers would appear to be a significant added benefit",
        Origin::AZQuotesQuote(1_338_293),
    );
    append_record(
        v,
        "Bjarne Stroustrup",
        248,
        "\"How to test?\" is a question that cannot be answered in general. \"When to test?\" however, does have a general answer: as early and as often as possible.",
        Origin::AZQuotesQuote(1_103_626),
    );
    append_record(
        v,
        "Bjarne Stroustrup",
        247,
        "Our civilization depends critically on software, and we have a dangerously low degree of professionalism in the computer fields",
        Origin::AZQuotesQuote(819_497),
    );
    append_record(
        v,
        "Bjarne Stroustrup",
        246,
        "There are more useful systems developed in languages deemed awful than in languages praised for being beautiful - many more.",
        Origin::AZQuotesQuote(1_103_627),
    );
    append_record(
        v,
        "\"The C++ Programming Language\". Book by Bjarne Stroustrup, October 1985.",
        245,
        "An organisation that treats its programmers as morons will soon have programmers that are willing and able to act like morons only.",
        Origin::AZQuotesQuote(673_771),
    );
    append_record(
        v,
        "Bjarne Stroustrup",
        244,
        "There is no one \"root of all evil\" in software development. Design is hard in many ways. People tend to underestimate the intellectual and practical difficulties involved in building a significant system involving software. It is not and will not be reduced to a simple mechanical \"assembly line\" process. Creativity, engineering principles, and evolutionary change are needed to create a satisfactory large system.",
        Origin::AZQuotesQuote(1_521_706),
    );
    assert(v@ =~= start + part_2());
}

/// The records with ids 243 down to 204.
pub open spec fn part_3() -> Seq<Quote> {
    seq![
        Quote {
            author: "Bjarne Stroustrup",
            id: 243,
            quote: "If you think it's simple, then you have misunderstood the problem.",
            permalink: Origin::AZQuotesQuote(765_017),
        },
        Quote {
            author: "Bjarne Stroustrup",
            id: 242,
            quote: "Anybody who comes to you and says he has a perfect language is either naive or a salesman.",
            permalink: Origin::AZQuotesQuote(819_484),
        },
        Quote {
            author: "Bjarne Stroustrup (1991). \u{201c}C Plus Plus Programming Language\u{201d}, Addison-Wesley / Helix Books ",
            id: 241,
            quote: "Destructors for virtual base classes are executed in the reverse order of their appearance in a depth-first left-to-right traversal of the directed acyclic graph of base classes.",
            permalink: Origin::AZQuotesQuote(1_426_519),
        },
        Quote {
            author: "Bjarne Stroustrup",
            id: 240,
            quote: "The first law of computer science: Every problem is solved by yet another indirection.",
            permalink: Origin::AZQuotesQuote(1_339_165),
        },
        Quote {
            author: "Bjarne Stroustrup",
            id: 239,
            quote: "It's easy to win forgiveness for being wrong; being right is what gets you into real trouble.",
            permalink: Origin::AZQuotesQuote(819_481),
        },
        Quote {
            author: "Bjarne Stroustrup",
            id: 238,
            quote: "C++ is my favorite garbage collected language because it generates so little garbage",
            permalink: Origin::AZQuotesQuote(819_485),
        },
        Quote {
            author: "Bjarne Stroustrup",
            id: 237,
            quote: "Java isn't platform independent; it is a platform",
            permalink: Origin::AZQuotesQuote(1_122_900),
        },
        Quote {
            author: "Bjarne Stroustrup",
            id: 236,
            quote: "The most important single aspect of software development is to be clear about what you are trying to build.",
            permalink: Origin::AZQuotesQuote(700_190),
        },
        Quote {
            author: "Bjarne Stroustrup",
            id: 235,
            quote: "A program that has not been tested does not work.",
            permalink: Origin::AZQuotesQuote(819_483),
        },
        Quote {
            author: "Bjarne Stroustrup",
            id: 234,
            quote: "When done well, software is invisible.",
            permalink: Origin::AZQuotesQuote(875_481),
        },
        Quote {
            author: "Bjarne Stroustrup",
            id: 233,
            quote: "Tom [Cargil]s suggestion with a further idea: Propsers of new [C++] features should be required to donate a kidney. That would - Jim [Waldo] pointed out - make people think hard before proposing, and even people without any sense would propose at most two extensions.",
            permalink: Origin::AZQuotesQuote(819_496),
        },
        Quote {
            author: "Bjarne Stroustrup",
            id: 232,
            quote: "The most fundamental problem in software development is complexity. There is only one basic way of dealing with complexity: divide and conquer",
            permalink: Origin::AZQuotesQuote(819_498),
        },
        Quote {
            author: "Bjarne Stroustrup",
            id: 231,
            quote: "C++ is designed to allow you to express ideas, but if you don't have ideas or don't have any clue about how to express them, C++ doesn't offer much help.",
            permalink: Origin::AZQuotesQuote(819_482),
        },
        Quote {
            author: "Robert C. Martin, Clean Architecture",
            id: 230,
            quote: "Any organisation that designs a system will produce a design whose structure is a copy of the organisation's communication structure",
            permalink: Origin::GoodReads,
        },
        Quote {
            author: "Abhijit Naskar",
            id: 229,
            quote: "Artificial intelligence is nowhere near attaining actual sentience or awareness. And without awareness it\u{2019}s simply a mechanical device, which may pretend to show emotions and sentience, if it is programmed to do so, and thus it may be able to fool the humans as being alive, but in its own internal circuitry, it\u{2019}d simply be following its preprogrammed tasks through the flowchart of an algorithm.",
            permalink: Origin::GoodReads,
        },
        Quote {
            author: "Donald Knuth",
            id: 228,
            quote: "Everyday life is like programming, I guess. If you love something you can put beauty into it.",
            permalink: Origin::GoodReads,
        },
        Quote {
            author: "Robert C. Martin, Clean Architecture",
            id: 227,
            quote: "The only way to go fast, is to go well.",
            permalink: Origin::GoodReads,
        },
        Quote {
            author: "Akshat Paul, React Native for iOS Development ",
            id: 226,
            quote: "User interface is the process of shifting from chaotic complexity to elegant simplicity.",
            permalink: Origin::GoodReads,
        },
        Quote {
            author: "Scott Meyers, Effective C++: 55 Specific Ways to Improve Your Programs and Designs ",
            id: 225,
            quote: "That doesn't upset too many people, but the fact that accessibility restrictions don't enter into the picture has caused more than one otherwise pacifistic soul to contemplate distinctly unpacifistic actions.",
            permalink: Origin::GoodReads,
        },
        Quote {
            author: "Alan J. Perlis",
            id: 224,
            quote: "What's in your hands I think and hope is intelligence: the ability to see the machine as more than when you were \u{fb01}rst led up to it that you can make it more.",
            permalink: Origin::GoodReads,
        },
        Quote {
            author: "Robert C. Martin, Clean Architecture",
            id: 223,
            quote: "I'm a programmer. I like programming. And the best way I'vefound to have a positive impact on code is to write it.",
            permalink: Origin::GoodReads,
        },
        Quote {
            author: "Vernor Vinge, A Deepness in the Sky",
            id: 222,
            quote: "Programming went back to the beginning of time. It was a little like the midden out back of his father's castle.",
            permalink: Origin::GoodReads,
        },
        Quote {
            author: "James Alan Gardner, Ascending",
            id: 221,
            quote: "What kind of programmer is so divorced from reality that she thinks she'll get complex software right the first time?",
            permalink: Origin::GoodReads,
        },
        Quote {
            author: "Alan J Perlis",
            id: 220,
            quote: "Is it possible that software is not like anything else, that it is meant to be discarded: that the whole point is to always see it as a soap bubble",
            permalink: Origin::GoodReads,
        },
        Quote {
            author: "Steven S. Skiena, The Algorithm Design Manual",
            id: 219,
            quote: "The issue of finding the best possible answer or achieving maximum efficiency usually arises in industry only after serious performance or legal troubles.",
            permalink: Origin::GoodReads,
        },
        Quote {
            author: "Andrew Hunt, The Pragmatic Programmer: From Journeyman to Master",
            id: 218,
            quote: "Don\"t gloss over a routine or piece of code involved in the bug because you \"know\" it works. Prove it. Prove it in this context, with this data, with these boundary conditions.",
            permalink: Origin::GoodReads,
        },
        Quote {
            author: "Robert C. Martin",
            id: 217,
            quote: "Remember that code is really the language in which we ultimately express the requirements. We may create languages that are closer to the requirements. We may create tools that help us parse and assemble those requirements into formal structures. But we will never eliminate necessary precision\u{2014}so there will always be code.",
            permalink: Origin::GoodReads,
        },
        Quote {
            author: "Douglas Crockford, JavaScript: The Good Parts",
            id: 216,
            quote: "We see a lot of feature-driven product design in which the cost of features is not properly accounted. Features can have a negative value to customers because they make the products more difficult to understand and use. We are finding that people like products that just work. It turns out that designs that just work are much harder to produce that designs that assemble long lists of features.",
            permalink: Origin::GoodReads,
        },
        Quote {
            author: "Charles Petzold, Code",
            id: 215,
            quote: "Code is not like other how-computers-work books. It doesn't have big color illustrations of disk drives with arrows showing how the data sweeps into the computer. Code has no drawings of trains carrying a cargo of zeros and ones. Metaphors and similes are wonderful literary devices but they do nothing but obscure the beauty of technology.",
            permalink: Origin::GoodReads,
        },
        Quote {
            author: "Edsger W. Dijkstra",
            id: 214,
            quote: "Progress is possible only if we train ourselves to think about programs without thinking of them as pieces of executable code.",
            permalink: Origin::GoodReads,
        },
        Quote {
            author: "Alan J. Perlis ",
            id: 213,
            quote: "Programmers are not to be measured by their ingenuity and their logic but by the completeness of their case analysis.",
            permalink: Origin::GoodReads,
        },
        Quote {
            author: "Max Kanat-Alexander, Code Simplicity: The Fundamentals of Software",
            id: 212,
            quote: "Some of the best programming is done on paper, really. Putting it into the computer is just a minor detail.",
            permalink: Origin::GoodReads,
        },
        Quote {
            author: "Douglas Rushkoff, Program or Be Programmed: Ten Commands for a Digital Age",
            id: 211,
            quote: "We are looking at a society increasingly dependent on machines, yet decreasingly capable of making or even using them effectively.",
            permalink: Origin::GoodReads,
        },
        Quote {
            author: "Edmond Mbiaka ",
            id: 210,
            quote: "Take positive care of your mind, and it would surely take positive care of your life.",
            permalink: Origin::GoodReads,
        },
        Quote {
            author: "Suzy Kassem, Rise Up and Salute the Sun: The Writings of Suzy Kassem",
            id: 209,
            quote: "A conscious human is driven by their conscience, not popular opinion.",
            permalink: Origin::GoodReads,
        },
        Quote {
            author: "Alan J. Perlis",
            id: 208,
            quote: "I think that it\u{2019}s extraordinarily important that we in computer science keep fun in computing. When it started out it was an awful lot of fun. Of course the paying customers got shafted every now and then and after a while we began to take their complaints seriously. We began to feel as if we really were responsible for the successful error-free perfect use of these machines. I don\u{2019}t think we are. I think we\u{2019}re responsible for stretching them setting them off in new directions and keeping fun in the house. I hope the \u{fb01}eld of computer science never loses its sense of fun. Above all I hope we don\u{2019}t become missionaries. Don\u{2019}t feel as if you\u{2019}re Bible sales-men. The world has too many of those already. What you know about computing other people will learn. Don\u{2019}t feel as if the key to successful computing is only in your hands. What\u{2019}s in your hands I think and hope is intelligence: the ability to see the machine as more than when you were \u{fb01}rst led up to it that you can make it more.",
            permalink: Origin::GoodReads,
        },
        Quote {
            author: "Michael Crichton, Prey",
            id: 207,
            quote: "At forty, I was too old to work as a programmer myself anymore; writing code is a young person\u{2019}s job.",
            permalink: Origin::GoodReads,
        },
        Quote {
            author: "Marvin Minsky",
            id: 206,
            quote: "A computer is like a violin. You can imagine a novice trying \u{fb01}rst a phonograph and then a violin. The latter, he says, sounds terrible. That is the argument we have heard from our humanists and most of our computer scientists. Computer programs are good, they say, for particular purposes, but they aren\u{2019}t \u{fb02}exible. Neither is a violin, or a typewriter, until you learn how to use it.",
            permalink: Origin::GoodReads,
        },
        Quote {
            author: "Larry Wall ",
            id: 205,
            quote: "When they first built the University of California at Irvine they just put the buildings in. They did not put any sidewalks, they just planted grass. The next year, they came back and put the sidewalks where the trails were in the grass. Perl is just that kind of language. It is not designed from first principles. Perl is those sidewalks in the grass.",
            permalink: Origin::GoodReads,
        },
        Quote {
            author: "C.A.R. Hoare",
            id: 204,
            quote: "The most important property of a program is whether it accomplishes the intention of its user.",
            permalink: Origin::GoodReads,
        },
    ]
}

/// Appends the records of `part_3`.
fn push_part_3(v: &mut Vec<Quote>)
    requires
        descending_from(old(v)@, CATALOG_SIZE as int),
        old(v)@.len() == 80,
    ensures
        descending_from(final(v)@, CATALOG_SIZE as int),
        final(v)@ == old(v)@ + part_3(),
{
    let ghost start = v@;
    append_record(
        v,
        "Bjarne Stroustrup",
        243,
        "If you think it's simple, then you have misunderstood the problem.",
        Origin::AZQuotesQuote(765_017),
    );
    append_record(
        v,
        "Bjarne Stroustrup",
        242,
        "Anybody who comes to you and says he has a perfect language is either naive or a salesman.",
        Origin::AZQuotesQuote(819_484),
    );
    append_record(
        v,
        "Bjarne Stroustrup (1991). \u{201c}C Plus Plus Programming Language\u{201d}, Addison-Wesley / Helix Books ",
        241,
        "Destructors for virtual base classes are executed in the reverse order of their appearance in a depth-first left-to-right traversal of the directed acyclic graph of base classes.",
        Origin::AZQuotesQuote(1_426_519),
    );
    append_record(
        v,
        "Bjarne Stroustrup",
        240,
        "The first law of computer science: Every problem is solved by yet another indirection.",
        Origin::AZQuotesQuote(1_339_165),
    );
    append_record(
        v,
        "Bjarne Stroustrup",
        239,
        "It's easy to win forgiveness for being wrong; being right is what gets you into real trouble.",
        Origin::AZQuotesQuote(819_481),
    );
    append_record(
        v,
        "Bjarne Stroustrup",
        238,
        "C++ is my favorite garbage collected language because it generates so little garbage",
        Origin::AZQuotesQuote(819_485),
    );
    append_record(
        v,
        "Bjarne Stroustrup",
        237,
        "Java isn't platform independent; it is a platform",
        Origin::AZQuotesQuote(1_122_900),
    );
    append_record(
        v,
        "Bjarne Stroustrup",
        236,
        "The most important single aspect of software development is to be clear about what you are trying to build.",
        Origin::AZQuotesQuote(700_190),
    );
    append_record(
        v,
        "Bjarne Stroustrup",
        235,
        "A program that has not been tested does not work.",
        Origin::AZQuotesQuote(819_483),
    );
    append_record(
        v,
        "Bjarne Stroustrup",
        234,
        "When done well, software is invisible.",
        Origin::AZQuotesQuote(875_481),
    );
    append_record(
        v,
        "Bjarne Stroustrup",
        233,
        "Tom [Cargil]s suggestion with a further idea: Propsers of new [C++] features should be required to donate a kidney. That would - Jim [Waldo] pointed out - make people think hard before proposing, and even people without any sense would propose at most two extensions.",
        Origin::AZQuotesQuote(819_496),
    );
    append_record(
        v,
        "Bjarne Stroustrup",
        232,
        "The most fundamental problem in software development is complexity. There is only one basic way of dealing with complexity: divide and conquer",
        Origin::AZQuotesQuote(819_498),
    );
    append_record(
        v,
        "Bjarne Stroustrup",
        231,
        "C++ is designed to allow you to express ideas, but if you don't have ideas or don't have any clue about how to express them, C++ doesn't offer much help.",
        Origin::AZQuotesQuote(819_482),
    );
    append_record(
        v,
        "Robert C. Martin, Clean Architecture",
        230,
        "Any organisation that designs a system will produce a design whose structure is a copy of the organisation's communication structure",
        Origin::GoodReads,
    );
    append_record(
        v,
        "Abhijit Naskar",
        229,
        "Artificial intelligence is nowhere near attaining actual sentience or awareness. And without awareness it\u{2019}s simply a mechanical device, which may pretend to show emotions and sentience, if it is programmed to do so, and thus it may be able to fool the humans as being alive, but in its own internal circuitry, it\u{2019}d simply be following its preprogrammed tasks through the flowchart of an algorithm.",
        Origin::GoodReads,
    );
    append_record(
        v,
        "Donald Knuth",
        228,
        "Everyday life is like programming, I guess. If you love something you can put beauty into it.",
        Origin::GoodReads,
    );
    append_record(
        v,
        "Robert C. Martin, Clean Architecture",
        227,
        "The only way to go fast, is to go well.",
        Origin::GoodReads,
    );
    append_record(
        v,
        "Akshat Paul, React Native for iOS Development ",
        226,
        "User interface is the process of shifting from chaotic complexity to elegant simplicity.",
        Origin::GoodReads,
    );
    append_record(
        v,
        "Scott Meyers, Effective C++: 55 Specific Ways to Improve Your Programs and Designs ",
        225,
        "That doesn't upset too many people, but the fact that accessibility restrictions don't enter into the picture has caused more than one otherwise pacifistic soul to contemplate distinctly unpacifistic actions.",
        Origin::GoodReads,
    );
    append_record(
        v,
        "Alan J. Perlis",
        224,
        "What's in your hands I think and hope is intelligence: the ability to see the machine as more than when you were \u{fb01}rst led up to it that you can make it more.",
        Origin::GoodReads,
    );
    append_record(
        v,
        "Robert C. Martin, Clean Architecture",
        223,
        "I'm a programmer. I like programming. And the best way I'vefound to have a positive impact on code is to write it.",
        Origin::GoodReads,
    );
    append_record(
        v,
        "Vernor Vinge, A Deepness in the Sky",
        222,
        "Programming went back to the beginning of time. It was a little like the midden out back of his father's castle.",
        Origin::GoodReads,
    );
    append_record(
        v,
        "James Alan Gardner, Ascending",
        221,
        "What kind of programmer is so divorced from reality that she thinks she'll get complex software right the first time?",
        Origin::GoodReads,
    );
    append_record(
        v,
        "Alan J Perlis",
        220,
        "Is it possible that software is not like anything else, that it is meant to be discarded: that the whole point is to always see it as a soap bubble",
        Origin::GoodReads,
    );
    append_record(
        v,
        "Steven S. Skiena, The Algorithm Design Manual",
        219,
        "The issue of finding the best possible answer or achieving maximum efficiency usually arises in industry only after serious performance or legal troubles.",
        Origin::GoodReads,
    );
    append_record(
        v,
        "Andrew Hunt, The Pragmatic Programmer: From Journeyman to Master",
        218,
        "Don\"t gloss over a routine or piece of code involved in the bug because you \"know\" it works. Prove it. Prove it in this context, with this data, with these boundary conditions.",
        Origin::GoodReads,
    );
    append_record(
        v,
        "Robert C. Martin",
        217,
        "Remember that code is really the language in which we ultimately express the requirements. We may create languages that are closer to the requirements. We may create tools that help us parse and assemble those requirements into formal structures. But we will never eliminate necessary precision\u{2014}so there will always be code.",
        Origin::GoodReads,
    );
    append_record(
        v,
        "Douglas Crockford, JavaScript: The Good Parts",
        216,
        "We see a lot of feature-driven product design in which the cost of features is not properly accounted. Features can have a negative value to customers because they make the products more difficult to understand and use. We are finding that people like products that just work. It turns out that designs that just work are much harder to produce that designs that assemble long lists of features.",
        Origin::GoodReads,
    );
    append_record(
        v,
        "Charles Petzold, Code",
        215,
        "Code is not like other how-computers-work books. It doesn't have big color illustrations of disk drives with arrows showing how the data sweeps into the computer. Code has no drawings of trains carrying a cargo of zeros and ones. Metaphors and similes are wonderful literary devices but they do nothing but obscure the beauty of technology.",
        Origin::GoodReads,
    );
    append_record(
        v,
        "Edsger W. Dijkstra",
        214,
        "Progress is possible only if we train ourselves to think about programs without thinking of them as pieces of executable code.",
        Origin::GoodReads,
    );
    append_record(
        v,
        "Alan J. Perlis ",
        213,
        "Programmers are not to be measured by their ingenuity and their logic but by the completeness of their case analysis.",
        Origin::GoodReads,
    );
    append_record(
        v,
        "Max Kanat-Alexander, Code Simplicity: The Fundamentals of Software",
        212,
        "Some of the best programming is done on paper, really. Putting it into the computer is just a minor detail.",
        Origin::GoodReads,
    );
    append_record(
        v,
        "Douglas Rushkoff, Program or Be Programmed: Ten Commands for a Digital Age",
        211,
        "We are looking at a society increasingly dependent on machines, yet decreasingly capable of making or even using them effectively.",
        Origin::GoodReads,
    );
    append_record(
        v,
        "Edmond Mbiaka ",
        210,
        "Take positive care of your mind, and it would surely take positive care of your life.",
        Origin::GoodReads,
    );
    append_record(
        v,
        "Suzy Kassem, Rise Up and Salute the Sun: The Writings of Suzy Kassem",
        209,
        "A conscious human is driven by their conscience, not popular opinion.",
        Origin::GoodReads,
    );
    append_record(
        v,
        "Alan J. Perlis",
        208,
        "I think that it\u{2019}s extraordinarily important that we in computer science keep fun in computing. When it started out it was an awful lot of fun. Of course the paying customers got shafted every now and then and after a while we began to take their complaints seriously. We began to feel as if we really were responsible for the successful error-free perfect use of these machines. I don\u{2019}t think we are. I think we\u{2019}re responsible for stretching them setting them off in new directions and keeping fun in the house. I hope the \u{fb01}eld of computer science never loses its sense of fun. Above all I hope we don\u{2019}t become missionaries. Don\u{2019}t feel as if you\u{2019}re Bible sales-men. The world has too many of those already. What you know about computing other people will learn. Don\u{2019}t feel as if the key to successful computing is only in your hands. What\u{2019}s in your hands I think and hope is intelligence: the ability to see the machine as more than when you were \u{fb01}rst led up to it that you can make it more.",
        Origin::GoodReads,
    );
    append_record(
        v,
        "Michael Crichton, Prey",
        207,
        "At forty, I was too old to work as a programmer myself anymore; writing code is a young person\u{2019}s job.",
        Origin::GoodReads,
    );
    append_record(
        v,
        "Marvin Minsky",
        206,
        "A computer is like a violin. You can imagine a novice trying \u{fb01}rst a phonograph and then a violin. The latter, he says, sounds terrible. That is the argument we have heard from our humanists and most of our computer scientists. Computer programs are good, they say, for particular purposes, but they aren\u{2019}t \u{fb02}exible. Neither is a violin, or a typewriter, until you learn how to use it.",
        Origin::GoodReads,
    );
    append_record(
        v,
        "Larry Wall ",
        205,
        "When they first built the University of California at Irvine they just put the buildings in. They did not put any sidewalks, they just planted grass. The next year, they came back and put the sidewalks where the trails were in the grass. Perl is just that kind of language. It is not designed from first principles. Perl is those sidewalks in the grass.",
        Origin::GoodReads,
    );
    append_record(
        v,
        "C.A.R. Hoare",
        204,
        "The most important property of a program is whether it accomplishes the intention of its user.",
        Origin::GoodReads,
    );
    assert(v@ =~= start + part_3());
}

/// The records with ids 203 down to 164.
pub open spec fn part_4() -> Seq<Quote> {
    seq![
        Quote {
            author: "Joseph Weizenbaum",
            id: 203,
            quote: "The computer programmer is a creator of universes for which he alone is the lawgiver. No playwright, no stage director, no emperor, however powerful, has ever exercised such absolute authority to arrange a stage or field of battle and to command such unswervingly dutiful actors or troops.",
            permalink: Origin::GoodReads,
        },
        Quote {
            author: "Alan Kay",
            id: 202,
            quote: "The most disastrous thing that you can ever learn is your first programming language.",
            permalink: Origin::GoodReads,
        },
        Quote {
            author: "Alan J. Perlis",
            id: 201,
            quote: "A language that doesn't affect the way you think about programming is not worth knowing.",
            permalink: Origin::GoodReads,
        },
        Quote {
            author: "Steve Jobs ",
            id: 200,
            quote: "You've baked a really lovely cake, but then you've used dog shit for frosting.",
            permalink: Origin::GoodReads,
        },
        Quote {
            author: "Robert C. Martin, Clean Code: A Handbook of Agile Software Craftsmanship ",
            id: 199,
            quote: "Truth can only be found in one place: the code.",
            permalink: Origin::GoodReads,
        },
        Quote {
            author: "Rasheed Ogunlaru",
            id: 198,
            quote: "How you look at it is pretty much how you'll see it",
            permalink: Origin::GoodReads,
        },
        Quote {
            author: "Martin Fowler ",
            id: 197,
            quote: "Any fool can write code that a computer can understand. Good programmers write code that humans can understand.",
            permalink: Origin::GoodReads,
        },
        Quote {
            author: "Muhammad Waseem",
            id: 196,
            quote: "Give a man a program, frustrate him for a day.\n Teach a man to program, frustrate him for a lifetime.",
            permalink: Origin::GoodReads,
        },
        Quote {
            author: "Kent Beck",
            id: 195,
            quote: "I'm not a great programmer; I'm just a good programmer with great habits",
            permalink: Origin::GoodReads,
        },
        Quote {
            author: "Larry Niven",
            id: 194,
            quote: "That's the thing about people who think they hate computers. What they really hate is lousy programmers.",
            permalink: Origin::GoodReads,
        },
        Quote {
            author: "Donald E. Knuth, Selected Papers on Computer Science ",
            id: 193,
            quote: "The best programs are written so that computing machines can perform them quickly and so that human beings can understand them clearly. A programmer is ideally an essayist who works with traditional aesthetic and literary forms as well as mathematical concepts, to communicate the way that an algorithm works and to convince a reader that the results will be correct.",
            permalink: Origin::GoodReads,
        },
        Quote {
            author: "Richard P. Feynman, Surely You're Joking, Mr. Feynman!: Adventures of a Curious Character",
            id: 192,
            quote: "Well, Mr. Frankel, who started this program, began to suffer from the computer disease that anybody who works with computers now knows about. It's a very serious disease and it interferes completely with the work. The trouble with computers is you *play* with them. They are so wonderful. You have these switches - if it's an even number you do this, if it's an odd number you do that - and pretty soon you can do more and more elaborate things if you are clever enough, on one machine. After a while the whole system broke down. Frankel wasn't paying any attention; he wasn't supervising anybody. The system was going very, very slowly - while he was sitting in a room figuring out how to make one tabulator automatically print arc-tangent X, and then it would start and it would print columns and then bitsi, bitsi, bitsi, and calculate the arc-tangent automatically by integrating as it went along and make a whole table in one operation. Absolutely useless. We *had* tables of arc-tangents. But if you've ever worked with computers, you understand the disease - the *delight* in being able to see how much you can do. But he got the disease for the first time, the poor fellow who invented the thing.",
            permalink: Origin::GoodReads,
        },
        Quote {
            author: "Harold Abelson, Structure and Interpretation of Computer Programs",
            id: 191,
            quote: "Programs must be written for people to read, and only incidentally for machines to execute.",
            permalink: Origin::GoodReads,
        },
        Quote {
            author: "Why The Lucky Stiff",
            id: 190,
            quote: "When you don't create things, you become defined by your tastes rather than ability. your tastes only narrow & exclude people. so create.",
            permalink: Origin::GoodReads,
        },
        Quote {
            author: "Linus Torvalds",
            id: 189,
            quote: "Talk is cheap. Show me the code.",
            permalink: Origin::GoodReads,
        },
        Quote {
            author: "Frederick P. Brooks",
            id: 188,
            quote: "What one programmer can do in one month, two programmers can do in two months.",
            permalink: Origin::VimStartify,
        },
        Quote {
            author: "Aaron Swartz",
            id: 187,
            quote: "Be curious. Read widely. Try new things. I think a lot of what people call intelligence boils down to curiosity.",
            permalink: Origin::VimStartify,
        },
        Quote {
            author: "Edward V. Berard",
            id: 186,
            quote: "Walking on water and developing software from a specification are easy if both are frozen.",
            permalink: Origin::VimStartify,
        },
        Quote {
            author: "Daniel J. Bernstein",
            id: 185,
            quote: "The average user doesn't give a damn what happens, as long as (1) it works and (2) it's fast.",
            permalink: Origin::VimStartify,
        },
        Quote {
            author: "Patrick McKenzie",
            id: 184,
            quote: "Every great developer you know got there by solving problems they were unqualified to solve until they actually did it.",
            permalink: Origin::VimStartify,
        },
        Quote {
            author: "Jon Acuff",
            id: 183,
            quote: "Developing tolerance for imperfection is the key factor in turning chronic starters into consistent finishers.",
            permalink: Origin::VimStartify,
        },
        Quote {
            author: "Stephen Hawking",
            id: 182,
            quote: "To understand recursion, one must first understand recursion.",
            permalink: Origin::VimStartify,
        },
        Quote {
            author: "Bill Gates, 1981",
            id: 181,
            quote: "640K ought to be enough for anybody.",
            permalink: Origin::VimStartify,
        },
        Quote {
            author: "Edsger W. Dijkstra",
            id: 180,
            quote: "If debugging is the process of removing bugs, then programming must be the process of putting them in.",
            permalink: Origin::VimStartify,
        },
        Quote {
            author: "Tom Cargill",
            id: 179,
            quote: "The first 90% of the code accounts for the first 90% of the development time. The remaining 10% of the code accounts for the other 90% of the development time.",
            permalink: Origin::VimStartify,
        },
        Quote {
            author: "Unknown",
            id: 178,
            quote: "Question: How does a large software project get to be one year late? Answer: One day at a time!",
            permalink: Origin::VimStartify,
        },
        Quote {
            author: "Paul Graham, Hackers & Painters: Big Ideas from the Computer Age",
            id: 177,
            quote: "The object-oriented model makes it easy to build up programs by accretion. What this often means, in practice, is that it provides a structured way to write spaghetti code.",
            permalink: Origin::VimStartify,
        },
        Quote {
            author: "Mark Twain",
            id: 176,
            quote: "They did not know it was impossible, so they did it!",
            permalink: Origin::VimStartify,
        },
        Quote {
            author: "Donald Knuth",
            id: 175,
            quote: "Software is hard.",
            permalink: Origin::VimStartify,
        },
        Quote {
            author: "Terje Mathisen",
            id: 174,
            quote: "All programming is an exercise in caching.",
            permalink: Origin::VimStartify,
        },
        Quote {
            author: "Albert Einstein",
            id: 173,
            quote: "If you can't explain something to a six-year-old, you really don't understand it yourself.",
            permalink: Origin::VimStartify,
        },
        Quote {
            author: "Unknown",
            id: 172,
            quote: "Nothing is more permanent than a temporary solution.",
            permalink: Origin::VimStartify,
        },
        Quote {
            author: "Larry Wall",
            id: 171,
            quote: "Easy things should be easy and hard things should be possible.",
            permalink: Origin::VimStartify,
        },
        Quote {
            author: "Alan J. Perlis",
            id: 170,
            quote: "Functions delay binding; data structures induce binding. Moral: Structure data late in the programming process.",
            permalink: Origin::VimStartify,
        },
        Quote {
            author: "David Wheeler",
            id: 169,
            quote: "All problems in computer science can be solved with another level of indirection.",
            permalink: Origin::VimStartify,
        },
        Quote {
            author: "Alan J. Perlis",
            id: 168,
            quote: "A LISP programmer knows the value of everything, but the cost of nothing.",
            permalink: Origin::VimStartify,
        },
        Quote {
            author: "Mosher's Law of Software Engineering",
            id: 167,
            quote: "Don't worry if it doesn't work right. If everything did, you'd be out of a job",
            permalink: Origin::VimStartify,
        },
        Quote {
            author: "Bill Gates",
            id: 166,
            quote: "Measuring programming progress by lines of code is like measuring aircraft building progress by weight.",
            permalink: Origin::VimStartify,
        },
        Quote {
            author: "John Johnson",
            id: 165,
            quote: "First, solve the problem. Then, write the code.",
            permalink: Origin::VimStartify,
        },
        Quote {
            author: "Kent Beck",
            id: 164,
            quote: "Optimism is an occupational hazard of programming; feedback is the treatment.",
            permalink: Origin::VimStartify,
        },
    ]
}

/// Appends the records of `part_4`.
fn push_part_4(v: &mut Vec<Quote>)
    requires
        descending_from(old(v)@, CATALOG_SIZE as int),
        old(v)@.len() == 120,
    ensures
        descending_from(final(v)@, CATALOG_SIZE as int),
        final(v)@ == old(v)@ + part_4(),
{
    let ghost start = v@;
    append_record(
        v,
        "Joseph Weizenbaum",
        203,
        "The computer programmer is a creator of universes for which he alone is the lawgiver. No playwright, no stage director, no emperor, however powerful, has ever exercised such absolute authority to arrange a stage or field of battle and to command such unswervingly dutiful actors or troops.",
        Origin::GoodReads,
    );
    append_record(
        v,
        "Alan Kay",
        202,
        "The most disastrous thing that you can ever learn is your first programming language.",
        Origin::GoodReads,
    );
    append_record(
        v,
        "Alan J. Perlis",
        201,
        "A language that doesn't affect the way you think about programming is not worth knowing.",
        Origin::GoodReads,
    );
    append_record(
        v,
        "Steve Jobs ",
        200,
        "You've baked a really lovely cake, but then you've used dog shit for frosting.",
        Origin::GoodReads,
    );
    append_record(
        v,
        "Robert C. Martin, Clean Code: A Handbook of Agile Software Craftsmanship ",
        199,
        "Truth can only be found in one place: the code.",
        Origin::GoodReads,
    );
    append_record(
        v,
        "Rasheed Ogunlaru",
        198,
        "How you look at it is pretty much how you'll see it",
        Origin::GoodReads,
    );
    append_record(
        v,
        "Martin Fowler ",
        197,
        "Any fool can write code that a computer can understand. Good programmers write code that humans can understand.",
        Origin::GoodReads,
    );
    append_record(
        v,
        "Muhammad Waseem",
        196,
        "Give a man a program, frustrate him for a day.\n Teach a man to program, frustrate him for a lifetime.",
        Origin::GoodReads,
    );
    append_record(
        v,
        "Kent Beck",
        195,
        "I'm not a great programmer; I'm just a good programmer with great habits",
        Origin::GoodReads,
    );
    append_record(
        v,
        "Larry Niven",
        194,
        "That's the thing about people who think they hate computers. What they really hate is lousy programmers.",
        Origin::GoodReads,
    );
    append_record(
        v,
        "Donald E. Knuth, Selected Papers on Computer Science ",
        193,
        "The best programs are written so that computing machines can perform them quickly and so that human beings can understand them clearly. A programmer is ideally an essayist who works with traditional aesthetic and literary forms as well as mathematical concepts, to communicate the way that an algorithm works and to convince a reader that the results will be correct.",
        Origin::GoodReads,
    );
    append_record(
        v,
        "Richard P. Feynman, Surely You're Joking, Mr. Feynman!: Adventures of a Curious Character",
        192,
        "Well, Mr. Frankel, who started this program, began to suffer from the computer disease that anybody who works with computers now knows about. It's a very serious disease and it interferes completely with the work. The trouble with computers is you *play* with them. They are so wonderful. You have these switches - if it's an even number you do this, if it's an odd number you do that - and pretty soon you can do more and more elaborate things if you are clever enough, on one machine. After a while the whole system broke down. Frankel wasn't paying any attention; he wasn't supervising anybody. The system was going very, very slowly - while he was sitting in a room figuring out how to make one tabulator automatically print arc-tangent X, and then it would start and it would print columns and then bitsi, bitsi, bitsi, and calculate the arc-tangent automatically by integrating as it went along and make a whole table in one operation. Absolutely useless. We *had* tables of arc-tangents. But if you've ever worked with computers, you understand the disease - the *delight* in being able to see how much you can do. But he got the disease for the first time, the poor fellow who invented the thing.",
        Origin::GoodReads,
    );
    append_record(
        v,
        "Harold Abelson, Structure and Interpretation of Computer Programs",
        191,
        "Programs must be written for people to read, and only incidentally for machines to execute.",
        Origin::GoodReads,
    );
    append_record(
        v,
        "Why The Lucky Stiff",
        190,
        "When you don't create things, you become defined by your tastes rather than ability. your tastes only narrow & exclude people. so create.",
        Origin::GoodReads,
    );
    append_record(
        v,
        "Linus Torvalds",
        189,
        "Talk is cheap. Show me the code.",
        Origin::GoodReads,
    );
    append_record(
        v,
        "Frederick P. Brooks",
        188,
        "What one programmer can do in one month, two programmers can do in two months.",
        Origin::VimStartify,
    );
    append_record(
        v,
        "Aaron Swartz",
        187,
        "Be curious. Read widely. Try new things. I think a lot of what people call intelligence boils down to curiosity.",
        Origin::VimStartify,
    );
    append_record(
        v,
        "Edward V. Berard",
        186,
        "Walking on water and developing software from a specification are easy if both are frozen.",
        Origin::VimStartify,
    );
    append_record(
        v,
        "Daniel J. Bernstein",
        185,
        "The average user doesn't give a damn what happens, as long as (1) it works and (2) it's fast.",
        Origin::VimStartify,
    );
    append_record(
        v,
        "Patrick McKenzie",
        184,
        "Every great developer you know got there by solving problems they were unqualified to solve until they actually did it.",
        Origin::VimStartify,
    );
    append_record(
        v,
        "Jon Acuff",
        183,
        "Developing tolerance for imperfection is the key factor in turning chronic starters into consistent finishers.",
        Origin::VimStartify,
    );
    append_record(
        v,
        "Stephen Hawking",
        182,
        "To understand recursion, one must first understand recursion.",
        Origin::VimStartify,
    );
    append_record(
        v,
        "Bill Gates, 1981",
        181,
        "640K ought to be enough for anybody.",
        Origin::VimStartify,
    );
    append_record(
        v,
        "Edsger W. Dijkstra",
        180,
        "If debugging is the process of removing bugs, then programming must be the process of putting them in.",
        Origin::VimStartify,
    );
    append_record(
        v,
        "Tom Cargill",
        179,
        "The first 90% of the code accounts for the first 90% of the development time. The remaining 10% of the code accounts for the other 90% of the development time.",
        Origin::VimStartify,
    );
    append_record(
        v,
        "Unknown",
        178,
        "Question: How does a large software project get to be one year late? Answer: One day at a time!",
        Origin::VimStartify,
    );
    append_record(
        v,
        "Paul Graham, Hackers & Painters: Big Ideas from the Computer Age",
        177,
        "The object-oriented model makes it easy to build up programs by accretion. What this often means, in practice, is that it provides a structured way to write spaghetti code.",
        Origin::VimStartify,
    );
    append_record(
        v,
        "Mark Twain",
        176,
        "They did not know it was impossible, so they did it!",
        Origin::VimStartify,
    );
    append_record(
        v,
        "Donald Knuth",
        175,
        "Software is hard.",
        Origin::VimStartify,
    );
    append_record(
        v,
        "Terje Mathisen",
        174,
        "All programming is an exercise in caching.",
        Origin::VimStartify,
    );
    append_record(
        v,
        "Albert Einstein",
        173,
        "If you can't explain something to a six-year-old, you really don't understand it yourself.",
        Origin::VimStartify,
    );
    append_record(
        v,
        "Unknown",
        172,
        "Nothing is more permanent than a temporary solution.",
        Origin::VimStartify,
    );
    append_record(
        v,
        "Larry Wall",
        171,
        "Easy things should be easy and hard things should be possible.",
        Origin::VimStartify,
    );
    append_record(
        v,
        "Alan J. Perlis",
        170,
        "Functions delay binding; data structures induce binding. Moral: Structure data late in the programming process.",
        Origin::VimStartify,
    );
    append_record(
        v,
        "David Wheeler",
        169,
        "All problems in computer science can be solved with another level of indirection.",
        Origin::VimStartify,
    );
    append_record(
        v,
        "Alan J. Perlis",
        168,
        "A LISP programmer knows the value of everything, but the cost of nothing.",
        Origin::VimStartify,
    );
    append_record(
        v,
        "Mosher's Law of Software Engineering",
        167,
        "Don't worry if it doesn't work right. If everything did, you'd be out of a job",
        Origin::VimStartify,
    );
    append_record(
        v,
        "Bill Gates",
        166,
        "Measuring programming progress by lines of code is like measuring aircraft building progress by weight.",
        Origin::VimStartify,
    );
    append_record(
        v,
        "John Johnson",
        165,
        "First, solve the problem. Then, write the code.",
        Origin::VimStartify,
    );
    append_record(
        v,
        "Kent Beck",
        164,
        "Optimism is an occupational hazard of programming; feedback is the treatment.",
        Origin::VimStartify,
    );
    assert(v@ =~= start + part_4());
}

/// The records with ids 163 down to 124.
pub open spec fn part_5() -> Seq<Quote> {
    seq![
        Quote {
            author: "Eric S. Raymond",
            id: 163,
            quote: "Computer science education cannot make anybody an expert programmer any more than studying brushes and pigment can make somebody an expert painter.",
            permalink: Origin::VimStartify,
        },
        Quote {
            author: "Larry Wall",
            id: 162,
            quote: "Most of you are familiar with the virtues of a programmer. There are three, of course: laziness, impatience, and hubris.",
            permalink: Origin::VimStartify,
        },
        Quote {
            author: "Edward Tufte",
            id: 161,
            quote: "There are only two industries that refer to their customers as \"users\".",
            permalink: Origin::VimStartify,
        },
        Quote {
            author: "Grady Booch",
            id: 160,
            quote: "The function of good software is to make the complex appear to be simple.",
            permalink: Origin::VimStartify,
        },
        Quote {
            author: "Ray Ozzie",
            id: 159,
            quote: "Complexity kills. It sucks the life out of developers, it makes products difficult to plan, build and test, it introduces security challenges, and it causes end-user and administrator frustration.",
            permalink: Origin::VimStartify,
        },
        Quote {
            author: "Brian Kernighan",
            id: 158,
            quote: "Controlling complexity is the essence of computer programming.",
            permalink: Origin::VimStartify,
        },
        Quote {
            author: "Linus Torvalds",
            id: 157,
            quote: "The bulk of all patents are crap. Spending time reading them is stupid. It's up to the patent owner to do so, and to enforce them.",
            permalink: Origin::VimStartify,
        },
        Quote {
            author: "Dennie van Tassel",
            id: 156,
            quote: "I've finally learned what \"upward compatible\" means. It means we get to keep all our old mistakes.",
            permalink: Origin::VimStartify,
        },
        Quote {
            author: "Alan Kay",
            id: 155,
            quote: "Most software today is very much like an Egyptian pyramid with millions of bricks piled on top of each other, with no structural integrity, but just done by brute force and thousands of slaves.",
            permalink: Origin::VimStartify,
        },
        Quote {
            author: "C3PO",
            id: 154,
            quote: "The city's central computer told you? R2D2, you know better than to trust a strange computer!",
            permalink: Origin::VimStartify,
        },
        Quote {
            author: "Marvin Minsky",
            id: 153,
            quote: "It's ridiculous to live 100 years and only be able to remember 30 million bytes. You know, less than a compact disc. The human condition is really becoming more obsolete every minute.",
            permalink: Origin::VimStartify,
        },
        Quote {
            author: "Edsger W. Dijkstra",
            id: 152,
            quote: "The question of whether computers can think is like the question of whether submarines can swim.",
            permalink: Origin::VimStartify,
        },
        Quote {
            author: "Pablo Picasso",
            id: 151,
            quote: "Computers are useless. They can only give you answers.",
            permalink: Origin::VimStartify,
        },
        Quote {
            author: "Peter Deutsch",
            id: 150,
            quote: "To iterate is human, to recurse divine.",
            permalink: Origin::VimStartify,
        },
        Quote {
            author: "Unknown",
            id: 149,
            quote: "Weeks of programming can save you hours of planning.",
            permalink: Origin::VimStartify,
        },
        Quote {
            author: "Unknown",
            id: 148,
            quote: "Why do we never have time to do it right, but always have time to do it over?",
            permalink: Origin::VimStartify,
        },
        Quote {
            author: "Unknown",
            id: 147,
            quote: "No matter how far down the wrong road you have gone, turn back now.",
            permalink: Origin::VimStartify,
        },
        Quote {
            author: "Unknown",
            id: 146,
            quote: "Think twice, code once.",
            permalink: Origin::VimStartify,
        },
        Quote {
            author: "Unknown",
            id: 145,
            quote: "Sign your work. Craftsmen of an earlier age were proud to sign their work. You should be, too.",
            permalink: Origin::VimStartify,
        },
        Quote {
            author: "Unknown",
            id: 144,
            quote: "Find bugs once. Once a human tester finds a bug, it should be the last time a human tester finds that bug. Automatic tests should check for it from then on.",
            permalink: Origin::VimStartify,
        },
        Quote {
            author: "Unknown",
            id: 143,
            quote: "Use saboteurs to test your testing. Introduce bugs on purpose in a separate copy of the source to verify that testing will catch them.",
            permalink: Origin::VimStartify,
        },
        Quote {
            author: "Unknown",
            id: 142,
            quote: "Test early. Test often. Test automatically. Tests that run with every build are much more effective than test plans that sit on a shelf.",
            permalink: Origin::VimStartify,
        },
        Quote {
            author: "Unknown",
            id: 141,
            quote: "Organize teams around functionality. Don't separate designers from coders, testers from data modelers. Build teams the way you build code.",
            permalink: Origin::VimStartify,
        },
        Quote {
            author: "Unknown",
            id: 140,
            quote: "Don't be a slave to formal methods. Don't blindly adopt any technique without putting it into the context of your development practices and capabilities.",
            permalink: Origin::VimStartify,
        },
        Quote {
            author: "Unknown",
            id: 139,
            quote: "Start when you're ready. You've been building experience all your life. don't ignore niggling doubts.",
            permalink: Origin::VimStartify,
        },
        Quote {
            author: "Unknown",
            id: 138,
            quote: "Use a project glossary. Create and maintain a single source of all the specific terms and vocabulary for a project.",
            permalink: Origin::VimStartify,
        },
        Quote {
            author: "Unknown",
            id: 137,
            quote: "Work with a user to think like a user. It's the best way to gain insight into how the system will really be used.",
            permalink: Origin::VimStartify,
        },
        Quote {
            author: "Unknown",
            id: 136,
            quote: "Don't use wizard code you don't understand. Wizards can generate reams of code. Make sure you understand all of it before you incorporate it into your project.",
            permalink: Origin::VimStartify,
        },
        Quote {
            author: "Unknown",
            id: 135,
            quote: "Design to test. Start thinking about testing before you write a line of code.",
            permalink: Origin::VimStartify,
        },
        Quote {
            author: "Unknown",
            id: 134,
            quote: "Test your estimates. Mathematical analysis of algorithms doesn't tell you everything. Try timing your code in its target environment.",
            permalink: Origin::VimStartify,
        },
        Quote {
            author: "Unknown",
            id: 133,
            quote: "Don't program by coincidence. Rely only on reliable things. Beware of accidental complexity, and don't confuse a happy coincidence with a purposeful plan.",
            permalink: Origin::VimStartify,
        },
        Quote {
            author: "Unknown",
            id: 132,
            quote: "Separate views from models. Gain flexibility at low cost by designing your application in terms of models and views.",
            permalink: Origin::VimStartify,
        },
        Quote {
            author: "Unknown",
            id: 131,
            quote: "Design using services. Design in terms of services-independent, concurrent objects behind well-defined, consistent interfaces.",
            permalink: Origin::VimStartify,
        },
        Quote {
            author: "Unknown",
            id: 130,
            quote: "Put abstractions in code, details in metadata. Program for the general case, and put the specifics outside the compiled code base.",
            permalink: Origin::VimStartify,
        },
        Quote {
            author: "Unknown",
            id: 129,
            quote: "Minimize coupling between modules. Avoid coupling by writing \"shy\" code and applying the Law of Demeter.",
            permalink: Origin::VimStartify,
        },
        Quote {
            author: "Unknown",
            id: 128,
            quote: "Use exceptions for exceptional problems. Exceptions can suffer from all the readability and maintainability problems of classic spaghetti code. Reserve exceptions for exceptional things.",
            permalink: Origin::VimStartify,
        },
        Quote {
            author: "Unknown",
            id: 127,
            quote: "Crash early. A dead program normally does a lot less damage than a crippled one.",
            permalink: Origin::VimStartify,
        },
        Quote {
            author: "Unknown",
            id: 126,
            quote: "You can't write perfect software. Software can't be perfect. Protect your code and users from the inevitable errors.",
            permalink: Origin::VimStartify,
        },
        Quote {
            author: "Unknown",
            id: 125,
            quote: "Learn a text manipulation language. You spend a large part of each day working with text. Why not have the computer do some of it for you?",
            permalink: Origin::VimStartify,
        },
        Quote {
            author: "Unknown",
            id: 124,
            quote: "\"select\" isn't broken. It is rare to find a bug in the OS or the compiler, or even a third-party product or library. The bug is most likely in the application.",
            permalink: Origin::VimStartify,
        },
    ]
}

/// Appends the records of `part_5`.
fn push_part_5(v: &mut Vec<Quote>)
    requires
        descending_from(old(v)@, CATALOG_SIZE as int),
        old(v)@.len() == 160,
    ensures
        descending_from(final(v)@, CATALOG_SIZE as int),
        final(v)@ == old(v)@ + part_5(),
{
    let ghost start = v@;
    append_record(
        v,
        "Eric S. Raymond",
        163,
        "Computer science education cannot make anybody an expert programmer any more than studying brushes and pigment can make somebody an expert painter.",
        Origin::VimStartify,
    );
    append_record(
        v,
        "Larry Wall",
        162,
        "Most of you are familiar with the virtues of a programmer. There are three, of course: laziness, impatience, and hubris.",
        Origin::VimStartify,
    );
    append_record(
        v,
        "Edward Tufte",
        161,
        "There are only two industries that refer to their customers as \"users\".",
        Origin::VimStartify,
    );
    append_record(
        v,
        "Grady Booch",
        160,
        "The function of good software is to make the complex appear to be simple.",
        Origin::VimStartify,
    );
    append_record(
        v,
        "Ray Ozzie",
        159,
        "Complexity kills. It sucks the life out of developers, it makes products difficult to plan, build and test, it introduces security challenges, and it causes end-user and administrator frustration.",
        Origin::VimStartify,
    );
    append_record(
        v,
        "Brian Kernighan",
        158,
        "Controlling complexity is the essence of computer programming.",
        Origin::VimStartify,
    );
    append_record(
        v,
        "Linus Torvalds",
        157,
        "The bulk of all patents are crap. Spending time reading them is stupid. It's up to the patent owner to do so, and to enforce them.",
        Origin::VimStartify,
    );
    append_record(
        v,
        "Dennie van Tassel",
        156,
        "I've finally learned what \"upward compatible\" means. It means we get to keep all our old mistakes.",
        Origin::VimStartify,
    );
    append_record(
        v,
        "Alan Kay",
        155,
        "Most software today is very much like an Egyptian pyramid with millions of bricks piled on top of each other, with no structural integrity, but just done by brute force and thousands of slaves.",
        Origin::VimStartify,
    );
    append_record(
        v,
        "C3PO",
        154,
        "The city's central computer told you? R2D2, you know better than to trust a strange computer!",
        Origin::VimStartify,
    );
    append_record(
        v,
        "Marvin Minsky",
        153,
        "It's ridiculous to live 100 years and only be able to remember 30 million bytes. You know, less than a compact disc. The human condition is really becoming more obsolete every minute.",
        Origin::VimStartify,
    );
    append_record(
        v,
        "Edsger W. Dijkstra",
        152,
        "The question of whether computers can think is like the question of whether submarines can swim.",
        Origin::VimStartify,
    );
    append_record(
        v,
        "Pablo Picasso",
        151,
        "Computers are useless. They can only give you answers.",
        Origin::VimStartify,
    );
    append_record(
        v,
        "Peter Deutsch",
        150,
        "To iterate is human, to recurse divine.",
        Origin::VimStartify,
    );
    append_record(
        v,
        "Unknown",
        149,
        "Weeks of programming can save you hours of planning.",
        Origin::VimStartify,
    );
    append_record(
        v,
        "Unknown",
        148,
        "Why do we never have time to do it right, but always have time to do it over?",
        Origin::VimStartify,
    );
    append_record(
        v,
        "Unknown",
        147,
        "No matter how far down the wrong road you have gone, turn back now.",
        Origin::VimStartify,
    );
    append_record(
        v,
        "Unknown",
        146,
        "Think twice, code once.",
        Origin::VimStartify,
    );
    append_record(
        v,
        "Unknown",
        145,
        "Sign your work. Craftsmen of an earlier age were proud to sign their work. You should be, too.",
        Origin::VimStartify,
    );
    append_record(
        v,
        "Unknown",
        144,
        "Find bugs once. Once a human tester finds a bug, it should be the last time a human tester finds that bug. Automatic tests should check for it from then on.",
        Origin::VimStartify,
    );
    append_record(
        v,
        "Unknown",
        143,
        "Use saboteurs to test your testing. Introduce bugs on purpose in a separate copy of the source to verify that testing will catch them.",
        Origin::VimStartify,
    );
    append_record(
        v,
        "Unknown",
        142,
        "Test early. Test often. Test automatically. Tests that run with every build are much more effective than test plans that sit on a shelf.",
        Origin::VimStartify,
    );
    append_record(
        v,
        "Unknown",
        141,
        "Organize teams around functionality. Don't separate designers from coders, testers from data modelers. Build teams the way you build code.",
        Origin::VimStartify,
    );
    append_record(
        v,
        "Unknown",
        140,
        "Don't be a slave to formal methods. Don't blindly adopt any technique without putting it into the context of your development practices and capabilities.",
        Origin::VimStartify,
    );
    append_record(
        v,
        "Unknown",
        139,
        "Start when you're ready. You've been building experience all your life. don't ignore niggling doubts.",
        Origin::VimStartify,
    );
    append_record(
        v,
        "Unknown",
        138,
        "Use a project glossary. Create and maintain a single source of all the specific terms and vocabulary for a project.",
        Origin::VimStartify,
    );
    append_record(
        v,
        "Unknown",
        137,
        "Work with a user to think like a user. It's the best way to gain insight into how the system will really be used.",
        Origin::VimStartify,
    );
    append_record(
        v,
        "Unknown",
        136,
        "Don't use wizard code you don't understand. Wizards can generate reams of code. Make sure you understand all of it before you incorporate it into your project.",
        Origin::VimStartify,
    );
    append_record(
        v,
        "Unknown",
        135,
        "Design to test. Start thinking about testing before you write a line of code.",
        Origin::VimStartify,
    );
    append_record(
        v,
        "Unknown",
        134,
        "Test your estimates. Mathematical analysis of algorithms doesn't tell you everything. Try timing your code in its target environment.",
        Origin::VimStartify,
    );
    append_record(
        v,
        "Unknown",
        133,
        "Don't program by coincidence. Rely only on reliable things. Beware of accidental complexity, and don't confuse a happy coincidence with a purposeful plan.",
        Origin::VimStartify,
    );
    append_record(
        v,
        "Unknown",
        132,
        "Separate views from models. Gain flexibility at low cost by designing your application in terms of models and views.",
        Origin::VimStartify,
    );
    append_record(
        v,
        "Unknown",
        131,
        "Design using services. Design in terms of services-independent, concurrent objects behind well-defined, consistent interfaces.",
        Origin::VimStartify,
    );
    append_record(
        v,
        "Unknown",
        130,
        "Put abstractions in code, details in metadata. Program for the general case, and put the specifics outside the compiled code base.",
        Origin::VimStartify,
    );
    append_record(
        v,
        "Unknown",
        129,
        "Minimize coupling between modules. Avoid coupling by writing \"shy\" code and applying the Law of Demeter.",
        Origin::VimStartify,
    );
    append_record(
        v,
        "Unknown",
        128,
        "Use exceptions for exceptional problems. Exceptions can suffer from all the readability and maintainability problems of classic spaghetti code. Reserve exceptions for exceptional things.",
        Origin::VimStartify,
    );
    append_record(
        v,
        "Unknown",
        127,
        "Crash early. A dead program normally does a lot less damage than a crippled one.",
        Origin::VimStartify,
    );
    append_record(
        v,
        "Unknown",
        126,
        "You can't write perfect software. Software can't be perfect. Protect your code and users from the inevitable errors.",
        Origin::VimStartify,
    );
    append_record(
        v,
        "Unknown",
        125,
        "Learn a text manipulation language. You spend a large part of each day working with text. Why not have the computer do some of it for you?",
        Origin::VimStartify,
    );
    append_record(
        v,
        "Unknown",
        124,
        "\"select\" isn't broken. It is rare to find a bug in the OS or the compiler, or even a third-party product or library. The bug is most likely in the application.",
        Origin::VimStartify,
    );
    assert(v@ =~= start + part_5());
}

/// The records with ids 123 down to 84.
pub open spec fn part_6() -> Seq<Quote> {
    seq![
        Quote {
            author: "Unknown",
            id: 123,
            quote: "Fix the problem, not the blame. It doesn't really matter whether the bug is your fault or someone else's - it is still your problem, and it still needs to be fixed.",
            permalink: Origin::VimStartify,
        },
        Quote {
            author: "Unknown",
            id: 122,
            quote: "Use a single editor well. The editor should be an extension of your hand; make sure your editor is configurable, extensible, and programmable.",
            permalink: Origin::VimStartify,
        },
        Quote {
            author: "Unknown",
            id: 121,
            quote: "Keep knowledge in plain text. Plain text won't become obsolete. It helps leverage your work and simplifies debugging and testing.",
            permalink: Origin::VimStartify,
        },
        Quote {
            author: "Unknown",
            id: 120,
            quote: "Estimate to avoid surprises. Estimate before you start. You'll spot potential problems up front.",
            permalink: Origin::VimStartify,
        },
        Quote {
            author: "Unknown",
            id: 119,
            quote: "Prototype to learn. Prototyping is a learning experience. Its value lies not in the code you produce, but in the lessons you learn.",
            permalink: Origin::VimStartify,
        },
        Quote {
            author: "Unknown",
            id: 118,
            quote: "There are no final decisions. No decision is cast in stone. Instead, consider each as being written in the sand at the beach, and plan for change.",
            permalink: Origin::VimStartify,
        },
        Quote {
            author: "Unknown",
            id: 117,
            quote: "Make it easy to reuse. If it's easy to reuse, people will. Create an environment that supports reuse.",
            permalink: Origin::VimStartify,
        },
        Quote {
            author: "Unknown",
            id: 116,
            quote: "It's both what you say and the way you say it. There's no point in having great ideas if you don't communicate them effectively.",
            permalink: Origin::VimStartify,
        },
        Quote {
            author: "Unknown",
            id: 115,
            quote: "Invest regularly in your knowledge portfolio. Make learning a habit.",
            permalink: Origin::VimStartify,
        },
        Quote {
            author: "Unknown",
            id: 114,
            quote: "Remember the big picture. don't get so engrossed in the details that you forget to check what's happening around you.",
            permalink: Origin::VimStartify,
        },
        Quote {
            author: "Unknown",
            id: 113,
            quote: "Don't live with broken windows. Fix bad designs, wrong decisions, and poor code when you see them.",
            permalink: Origin::VimStartify,
        },
        Quote {
            author: "Unknown",
            id: 112,
            quote: "Think about your work. Turn off the autopilot and take control. Constantly critique and appraise your work.",
            permalink: Origin::VimStartify,
        },
        Quote {
            author: "Unknown",
            id: 111,
            quote: "Gently exceed your users' expectations. Come to understand your users' expectations, then deliver just that little bit more.",
            permalink: Origin::VimStartify,
        },
        Quote {
            author: "Unknown",
            id: 110,
            quote: "English is just a programming language. Write documents as you would write code: honor the DRY principle, use metadata, MVC, automatic generation, and so on.",
            permalink: Origin::VimStartify,
        },
        Quote {
            author: "Unknown",
            id: 109,
            quote: "Test state coverage, not code coverage. Identify and test significant program states. Just testing lines of code isn't enough.",
            permalink: Origin::VimStartify,
        },
        Quote {
            author: "Unknown",
            id: 108,
            quote: "Coding ain't done \"til all the Tests run.\" Nuff said.",
            permalink: Origin::VimStartify,
        },
        Quote {
            author: "Unknown",
            id: 107,
            quote: "Don't use manual procedures. A shell script or batch file will execute the same instructions, in the same order, time after time.",
            permalink: Origin::VimStartify,
        },
        Quote {
            author: "Unknown",
            id: 106,
            quote: "Costly tools don't produce better designs. Beware of vendor hype, industry dogma, and the aura of the price tag. Judge tools on their merits.",
            permalink: Origin::VimStartify,
        },
        Quote {
            author: "Unknown",
            id: 105,
            quote: "Some things are better done than described. Don't fall into the specification spiral - at some point you need to start coding.",
            permalink: Origin::VimStartify,
        },
        Quote {
            author: "Unknown",
            id: 104,
            quote: "Don't think outside the box - find the box. When faced with an impossible problem, identify the real constraints. Ask yourself: \"Does it have to be done this way? Does it have to be done at all?\"",
            permalink: Origin::VimStartify,
        },
        Quote {
            author: "Unknown",
            id: 103,
            quote: "Abstractions live longer than details. Invest in the abstraction, not the implementation. Abstractions can survive the barrage of changes from different implementations and new technologies.",
            permalink: Origin::VimStartify,
        },
        Quote {
            author: "Unknown",
            id: 102,
            quote: "Don't gather requirements - dig for them. Requirements rarely lie on the surface. They're buried deep beneath layers of assumptions, misconceptions, and politics.",
            permalink: Origin::VimStartify,
        },
        Quote {
            author: "Unknown",
            id: 101,
            quote: "Test your software, or your users will. Test ruthlessly. don't make your users find bugs for you.",
            permalink: Origin::VimStartify,
        },
        Quote {
            author: "Unknown",
            id: 100,
            quote: "Refactor early, refactor often. Just as you might weed and rearrange a garden, rewrite, rework, and re-architect code when it needs it. Fix the root of the problem.",
            permalink: Origin::VimStartify,
        },
        Quote {
            author: "Unknown",
            id: 99,
            quote: "Estimate the order of your algorithms. Get a feel for how long things are likely to take before you write code.",
            permalink: Origin::VimStartify,
        },
        Quote {
            author: "Unknown",
            id: 98,
            quote: "Use blackboards to coordinate workflow. Use blackboards to coordinate disparate facts and agents, while maintaining independence and isolation among participants.",
            permalink: Origin::VimStartify,
        },
        Quote {
            author: "Unknown",
            id: 97,
            quote: "Always design for concurrency. Allow for concurrency, and you'll design cleaner interfaces with fewer assumptions.",
            permalink: Origin::VimStartify,
        },
        Quote {
            author: "Unknown",
            id: 96,
            quote: "Analyze workflow to improve concurrency. Exploit concurrency in your user's workflow.",
            permalink: Origin::VimStartify,
        },
        Quote {
            author: "Unknown",
            id: 95,
            quote: "Configure, don't integrate. Implement technology choices for an application as configuration options, not through integration or engineering.",
            permalink: Origin::VimStartify,
        },
        Quote {
            author: "Unknown",
            id: 94,
            quote: "Finish what you start. Where possible, the routine or object that allocates a resource should be responsible for deallocating it.",
            permalink: Origin::VimStartify,
        },
        Quote {
            author: "Unknown",
            id: 93,
            quote: "Use assertions to prevent the impossible. Assertions validate your assumptions. Use them to protect your code from an uncertain world.",
            permalink: Origin::VimStartify,
        },
        Quote {
            author: "Unknown",
            id: 92,
            quote: "Design With contracts. Use contracts to document and verify that code does no more and no less than it claims to do.",
            permalink: Origin::VimStartify,
        },
        Quote {
            author: "Unknown",
            id: 91,
            quote: "Write code that writes code. Code generators increase your productivity and help avoid duplication.",
            permalink: Origin::VimStartify,
        },
        Quote {
            author: "Unknown",
            id: 90,
            quote: "Don't assume it - prove it. Prove your assumptions in the actual environment - with real data and boundary conditions.",
            permalink: Origin::VimStartify,
        },
        Quote {
            author: "Unknown",
            id: 89,
            quote: "Don't panic when debugging Take a deep breath and THINK! about what could be causing the bug.",
            permalink: Origin::VimStartify,
        },
        Quote {
            author: "Unknown",
            id: 88,
            quote: "Always use source code control. Source code control is a time machine for your work - you can go back.",
            permalink: Origin::VimStartify,
        },
        Quote {
            author: "Unknown",
            id: 87,
            quote: "Use the power of command shells. Use the shell when graphical user interfaces don't cut it.",
            permalink: Origin::VimStartify,
        },
        Quote {
            author: "Unknown",
            id: 86,
            quote: "Iterate the schedule with the code. Use experience you gain as you implement to refine the project time scales.",
            permalink: Origin::VimStartify,
        },
        Quote {
            author: "Unknown",
            id: 85,
            quote: "Program close to the problem domain. Design and code in your user's language.",
            permalink: Origin::VimStartify,
        },
        Quote {
            author: "Unknown",
            id: 84,
            quote: "Use tracer bullets to find the target. Tracer bullets let you hone in on your target by trying things and seeing how close they land.",
            permalink: Origin::VimStartify,
        },
    ]
}

/// Appends the records of `part_6`.
fn push_part_6(v: &mut Vec<Quote>)
    requires
        descending_from(old(v)@, CATALOG_SIZE as int),
        old(v)@.len() == 200,
    ensures
        descending_from(final(v)@, CATALOG_SIZE as int),
        final(v)@ == old(v)@ + part_6(),
{
    let ghost start = v@;
    append_record(
        v,
        "Unknown",
        123,
        "Fix the problem, not the blame. It doesn't really matter whether the bug is your fault or someone else's - it is still your problem, and it still needs to be fixed.",
        Origin::VimStartify,
    );
    append_record(
        v,
        "Unknown",
        122,
        "Use a single editor well. The editor should be an extension of your hand; make sure your editor is configurable, extensible, and programmable.",
        Origin::VimStartify,
    );
    append_record(
        v,
        "Unknown",
        121,
        "Keep knowledge in plain text. Plain text won't become obsolete. It helps leverage your work and simplifies debugging and testing.",
        Origin::VimStartify,
    );
    append_record(
        v,
        "Unknown",
        120,
        "Estimate to avoid surprises. Estimate before you start. You'll spot potential problems up front.",
        Origin::VimStartify,
    );
    append_record(
        v,
        "Unknown",
        119,
        "Prototype to learn. Prototyping is a learning experience. Its value lies not in the code you produce, but in the lessons you learn.",
        Origin::VimStartify,
    );
    append_record(
        v,
        "Unknown",
        118,
        "There are no final decisions. No decision is cast in stone. Instead, consider each as being written in the sand at the beach, and plan for change.",
        Origin::VimStartify,
    );
    append_record(
        v,
        "Unknown",
        117,
        "Make it easy to reuse. If it's easy to reuse, people will. Create an environment that supports reuse.",
        Origin::VimStartify,
    );
    append_record(
        v,
        "Unknown",
        116,
        "It's both what you say and the way you say it. There's no point in having great ideas if you don't communicate them effectively.",
        Origin::VimStartify,
    );
    append_record(
        v,
        "Unknown",
        115,
        "Invest regularly in your knowledge portfolio. Make learning a habit.",
        Origin::VimStartify,
    );
    append_record(
        v,
        "Unknown",
        114,
        "Remember the big picture. don't get so engrossed in the details that you forget to check what's happening around you.",
        Origin::VimStartify,
    );
    append_record(
        v,
        "Unknown",
        113,
        "Don't live with broken windows. Fix bad designs, wrong decisions, and poor code when you see them.",
        Origin::VimStartify,
    );
    append_record(
        v,
        "Unknown",
        112,
        "Think about your work. Turn off the autopilot and take control. Constantly critique and appraise your work.",
        Origin::VimStartify,
    );
    append_record(
        v,
        "Unknown",
        111,
        "Gently exceed your users' expectations. Come to understand your users' expectations, then deliver just that little bit more.",
        Origin::VimStartify,
    );
    append_record(
        v,
        "Unknown",
        110,
        "English is just a programming language. Write documents as you would write code: honor the DRY principle, use metadata, MVC, automatic generation, and so on.",
        Origin::VimStartify,
    );
    append_record(
        v,
        "Unknown",
        109,
        "Test state coverage, not code coverage. Identify and test significant program states. Just testing lines of code isn't enough.",
        Origin::VimStartify,
    );
    append_record(
        v,
        "Unknown",
        108,
        "Coding ain't done \"til all the Tests run.\" Nuff said.",
        Origin::VimStartify,
    );
    append_record(
        v,
        "Unknown",
        107,
        "Don't use manual procedures. A shell script or batch file will execute the same instructions, in the same order, time after time.",
        Origin::VimStartify,
    );
    append_record(
        v,
        "Unknown",
        106,
        "Costly tools don't produce better designs. Beware of vendor hype, industry dogma, and the aura of the price tag. Judge tools on their merits.",
        Origin::VimStartify,
    );
    append_record(
        v,
        "Unknown",
        105,
        "Some things are better done than described. Don't fall into the specification spiral - at some point you need to start coding.",
        Origin::VimStartify,
    );
    append_record(
        v,
        "Unknown",
        104,
        "Don't think outside the box - find the box. When faced with an impossible problem, identify the real constraints. Ask yourself: \"Does it have to be done this way? Does it have to be done at all?\"",
        Origin::VimStartify,
    );
    append_record(
        v,
        "Unknown",
        103,
        "Abstractions live longer than details. Invest in the abstraction, not the implementation. Abstractions can survive the barrage of changes from different implementations and new technologies.",
        Origin::VimStartify,
    );
    append_record(
        v,
        "Unknown",
        102,
        "Don't gather requirements - dig for them. Requirements rarely lie on the surface. They're buried deep beneath layers of assumptions, misconceptions, and politics.",
        Origin::VimStartify,
    );
    append_record(
        v,
        "Unknown",
        101,
        "Test your software, or your users will. Test ruthlessly. don't make your users find bugs for you.",
        Origin::VimStartify,
    );
    append_record(
        v,
        "Unknown",
        100,
        "Refactor early, refactor often. Just as you might weed and rearrange a garden, rewrite, rework, and re-architect code when it needs it. Fix the root of the problem.",
        Origin::VimStartify,
    );
    append_record(
        v,
        "Unknown",
        99,
        "Estimate the order of your algorithms. Get a feel for how long things are likely to take before you write code.",
        Origin::VimStartify,
    );
    append_record(
        v,
        "Unknown",
        98,
        "Use blackboards to coordinate workflow. Use blackboards to coordinate disparate facts and agents, while maintaining independence and isolation among participants.",
        Origin::VimStartify,
    );
    append_record(
        v,
        "Unknown",
        97,
        "Always design for concurrency. Allow for concurrency, and you'll design cleaner interfaces with fewer assumptions.",
        Origin::VimStartify,
    );
    append_record(
        v,
        "Unknown",
        96,
        "Analyze workflow to improve concurrency. Exploit concurrency in your user's workflow.",
        Origin::VimStartify,
    );
    append_record(
        v,
        "Unknown",
        95,
        "Configure, don't integrate. Implement technology choices for an application as configuration options, not through integration or engineering.",
        Origin::VimStartify,
    );
    append_record(
        v,
        "Unknown",
        94,
        "Finish what you start. Where possible, the routine or object that allocates a resource should be responsible for deallocating it.",
        Origin::VimStartify,
    );
    append_record(
        v,
        "Unknown",
        93,
        "Use assertions to prevent the impossible. Assertions validate your assumptions. Use them to protect your code from an uncertain world.",
        Origin::VimStartify,
    );
    append_record(
        v,
        "Unknown",
        92,
        "Design With contracts. Use contracts to document and verify that code does no more and no less than it claims to do.",
        Origin::VimStartify,
    );
    append_record(
        v,
        "Unknown",
        91,
        "Write code that writes code. Code generators increase your productivity and help avoid duplication.",
        Origin::VimStartify,
    );
    append_record(
        v,
        "Unknown",
        90,
        "Don't assume it - prove it. Prove your assumptions in the actual environment - with real data and boundary conditions.",
        Origin::VimStartify,
    );
    append_record(
        v,
        "Unknown",
        89,
        "Don't panic when debugging Take a deep breath and THINK! about what could be causing the bug.",
        Origin::VimStartify,
    );
    append_record(
        v,
        "Unknown",
        88,
        "Always use source code control. Source code control is a time machine for your work - you can go back.",
        Origin::VimStartify,
    );
    append_record(
        v,
        "Unknown",
        87,
        "Use the power of command shells. Use the shell when graphical user interfaces don't cut it.",
        Origin::VimStartify,
    );
    append_record(
        v,
        "Unknown",
        86,
        "Iterate the schedule with the code. Use experience you gain as you implement to refine the project time scales.",
        Origin::VimStartify,
    );
    append_record(
        v,
        "Unknown",
        85,
        "Program close to the problem domain. Design and code in your user's language.",
        Origin::VimStartify,
    );
    append_record(
        v,
        "Unknown",
        84,
        "Use tracer bullets to find the target. Tracer bullets let you hone in on your target by trying things and seeing how close they land.",
        Origin::VimStartify,
    );
    assert(v@ =~= start + part_6());
}

/// The records with ids 83 down to 44.
pub open spec fn part_7() -> Seq<Quote> {
    seq![
        Quote {
            author: "Unknown",
            id: 83,
            quote: "Eliminate effects between unrelated things. Design components that are self-contained, independent, and have a single, well-defined purpose.",
            permalink: Origin::VimStartify,
        },
        Quote {
            author: "Unknown",
            id: 82,
            quote: "DRY - don't Repeat Yourself. Every piece of knowledge must have a single, unambiguous, authoritative representation within a system.",
            permalink: Origin::VimStartify,
        },
        Quote {
            author: "Unknown",
            id: 81,
            quote: "Critically analyze what you read and hear. don't be swayed by vendors, media hype, or dogma. Analyze information in terms of you and your project.",
            permalink: Origin::VimStartify,
        },
        Quote {
            author: "Unknown",
            id: 80,
            quote: "Make quality a requirements issue. Involve your users in determining the project's real quality requirements.",
            permalink: Origin::VimStartify,
        },
        Quote {
            author: "Unknown",
            id: 79,
            quote: "Be a catalyst for change. You can't force change on people. Instead, show them how the future might be and help them participate in creating it.",
            permalink: Origin::VimStartify,
        },
        Quote {
            author: "Unknown",
            id: 78,
            quote: "Provide options, don't make lame excuses. Instead of excuses, provide options. don't say it can't be done; explain what can be done.",
            permalink: Origin::VimStartify,
        },
        Quote {
            author: "Unknown",
            id: 77,
            quote: "Care about your craft. Why spend your life developing software unless you care about doing it well?",
            permalink: Origin::VimStartify,
        },
        Quote {
            author: "Andrew Gerrand",
            id: 76,
            quote: "Methods are just functions with a special first argument.",
            permalink: Origin::VimStartify,
        },
        Quote {
            author: "Rob Pike",
            id: 75,
            quote: "Fancy algorithms are slow when n is small, and n is usually small.",
            permalink: Origin::VimStartify,
        },
        Quote {
            author: "Larry Wall",
            id: 74,
            quote: "Almost every programming language is overrated by its practitioners.",
            permalink: Origin::VimStartify,
        },
        Quote {
            author: "Unknown",
            id: 73,
            quote: "Computers are harder to maintain at high altitude. Thinner air means less cushion between disk heads and platters. Also more radiation.",
            permalink: Origin::VimStartify,
        },
        Quote {
            author: "Bartosz Milewski",
            id: 72,
            quote: "If programmers were electricians, parallel programmers would be bomb disposal experts. Both cut wires.",
            permalink: Origin::VimStartify,
        },
        Quote {
            author: "Alan Cooper",
            id: 71,
            quote: "All idioms must be learned. Good idioms only need to be learned once.",
            permalink: Origin::VimStartify,
        },
        Quote {
            author: "Richard Feynman",
            id: 70,
            quote: "For a successful technology, reality must take precedence over public relations, for Nature cannot be fooled.",
            permalink: Origin::VimStartify,
        },
        Quote {
            author: "Unknown",
            id: 69,
            quote: "All loops are infinite ones for faulty RAM modules.",
            permalink: Origin::VimStartify,
        },
        Quote {
            author: "Rob Pike",
            id: 68,
            quote: "\"dd\" is horrible on purpose. It's a joke about OS/360 JCL. But today it's an internationally standardized joke. I guess that says it all.",
            permalink: Origin::VimStartify,
        },
        Quote {
            author: "Edsger W. Dijkstra",
            id: 67,
            quote: "Abstraction is not about vagueness, it is about being precise at a new semantic level.",
            permalink: Origin::VimStartify,
        },
        Quote {
            author: "Rob Pike",
            id: 66,
            quote: "Caches are bugs waiting to happen.",
            permalink: Origin::VimStartify,
        },
        Quote {
            author: "Leslie Lamport",
            id: 65,
            quote: "If you don't start with a spec, every piece of code you write is a patch.",
            permalink: Origin::VimStartify,
        },
        Quote {
            author: "Frank Wilczek",
            id: 64,
            quote: "If you don't make mistakes, you're not working on hard enough problems.",
            permalink: Origin::VimStartify,
        },
        Quote {
            author: "Unknown",
            id: 63,
            quote: "Perfection is achieved, not when there is nothing more to add, but when there is nothing left to take away.",
            permalink: Origin::VimStartify,
        },
        Quote {
            author: "Unknown",
            id: 62,
            quote: "Contrary to popular belief, Unix is user friendly. It just happens to be very selective about who it decides to make friends with.",
            permalink: Origin::VimStartify,
        },
        Quote {
            author: "Unknown",
            id: 61,
            quote: "Unix was not designed to stop its users from doing stupid things, as that would also stop them from doing clever things.",
            permalink: Origin::VimStartify,
        },
        Quote {
            author: "John Woods",
            id: 60,
            quote: "Always code as if the person who ends up maintaining your code is a violent psychopath who knows where you live.",
            permalink: Origin::VimStartify,
        },
        Quote {
            author: "Rich Hickey",
            id: 59,
            quote: "Patterns mean \"I have run out of language.\"",
            permalink: Origin::VimStartify,
        },
        Quote {
            author: "Doug Linder",
            id: 58,
            quote: "A good programmer is someone who always looks both ways before crossing a one-way street.",
            permalink: Origin::VimStartify,
        },
        Quote {
            author: "Phil Wadler",
            id: 57,
            quote: "The essence of XML is this: the problem it solves is not hard, and it does not solve the problem well.",
            permalink: Origin::VimStartify,
        },
        Quote {
            author: "Alan Kay",
            id: 56,
            quote: "Progress in a fixed context is almost always a form of optimization. Creative acts generally don't stay in the context that they are in.",
            permalink: Origin::VimStartify,
        },
        Quote {
            author: "Edsger W. Dijkstra",
            id: 55,
            quote: "The computing scientist's main challenge is not to get confused by the complexities of his own making.",
            permalink: Origin::VimStartify,
        },
        Quote {
            author: "Unknown",
            id: 54,
            quote: "If a system is to serve the creative spirit, it must be entirely comprehensible to a single individual.",
            permalink: Origin::VimStartify,
        },
        Quote {
            author: "Vincent Van Gogh",
            id: 53,
            quote: "I would rather die of passion than of boredom.",
            permalink: Origin::VimStartify,
        },
        Quote {
            author: "Glyn Williams",
            id: 52,
            quote: "I think a lot of new programmers like to use advanced data structures and advanced language features as a way of demonstrating their ability. I call it the lion-tamer syndrome. Such demonstrations are impressive, but unless they actually translate into real wins for the project, avoid them.",
            permalink: Origin::VimStartify,
        },
        Quote {
            author: "Alan Kay",
            id: 51,
            quote: "If you don't fail at least 90% of the time, you're not aiming high enough.",
            permalink: Origin::VimStartify,
        },
        Quote {
            author: "Peter Drucker",
            id: 50,
            quote: "There is nothing quite so useless as doing with great efficiency something that should not be done at all.",
            permalink: Origin::VimStartify,
        },
        Quote {
            author: "Alan Perlis",
            id: 49,
            quote: "It is better to have 100 functions operate on one data structure than 10 functions on 10 data structures.",
            permalink: Origin::VimStartify,
        },
        Quote {
            author: "Alan Perlis",
            id: 48,
            quote: "Recursion is the root of computation since it trades description for time.",
            permalink: Origin::VimStartify,
        },
        Quote {
            author: "Alan Perlis",
            id: 47,
            quote: "Optimization hinders evolution.",
            permalink: Origin::VimStartify,
        },
        Quote {
            author: "Alan Perlis",
            id: 46,
            quote: "Simplicity does not precede complexity, but follows it",
            permalink: Origin::VimStartify,
        },
        Quote {
            author: "Alan Perlis",
            id: 45,
            quote: "It is easier to change the specification to fit the program than vice versa.",
            permalink: Origin::VimStartify,
        },
        Quote {
            author: "Alan Perlis",
            id: 44,
            quote: "Fools ignore complexity. Pragmatists suffer it. Some can avoid it. Geniuses remove it.",
            permalink: Origin::VimStartify,
        },
    ]
}

/// Appends the records of `part_7`.
fn push_part_7(v: &mut Vec<Quote>)
    requires
        descending_from(old(v)@, CATALOG_SIZE as int),
        old(v)@.len() == 240,
    ensures
        descending_from(final(v)@, CATALOG_SIZE as int),
        final(v)@ == old(v)@ + part_7(),
{
    let ghost start = v@;
    append_record(
        v,
        "Unknown",
        83,
        "Eliminate effects between unrelated things. Design components that are self-contained, independent, and have a single, well-defined purpose.",
        Origin::VimStartify,
    );
    append_record(
        v,
        "Unknown",
        82,
        "DRY - don't Repeat Yourself. Every piece of knowledge must have a single, unambiguous, authoritative representation within a system.",
        Origin::VimStartify,
    );
    append_record(
        v,
        "Unknown",
        81,
        "Critically analyze what you read and hear. don't be swayed by vendors, media hype, or dogma. Analyze information in terms of you and your project.",
        Origin::VimStartify,
    );
    append_record(
        v,
        "Unknown",
        80,
        "Make quality a requirements issue. Involve your users in determining the project's real quality requirements.",
        Origin::VimStartify,
    );
    append_record(
        v,
        "Unknown",
        79,
        "Be a catalyst for change. You can't force change on people. Instead, show them how the future might be and help them participate in creating it.",
        Origin::VimStartify,
    );
    append_record(
        v,
        "Unknown",
        78,
        "Provide options, don't make lame excuses. Instead of excuses, provide options. don't say it can't be done; explain what can be done.",
        Origin::VimStartify,
    );
    append_record(
        v,
        "Unknown",
        77,
        "Care about your craft. Why spend your life developing software unless you care about doing it well?",
        Origin::VimStartify,
    );
    append_record(
        v,
        "Andrew Gerrand",
        76,
        "Methods are just functions with a special first argument.",
        Origin::VimStartify,
    );
    append_record(
        v,
        "Rob Pike",
        75,
        "Fancy algorithms are slow when n is small, and n is usually small.",
        Origin::VimStartify,
    );
    append_record(
        v,
        "Larry Wall",
        74,
        "Almost every programming language is overrated by its practitioners.",
        Origin::VimStartify,
    );
    append_record(
        v,
        "Unknown",
        73,
        "Computers are harder to maintain at high altitude. Thinner air means less cushion between disk heads and platters. Also more radiation.",
        Origin::VimStartify,
    );
    append_record(
        v,
        "Bartosz Milewski",
        72,
        "If programmers were electricians, parallel programmers would be bomb disposal experts. Both cut wires.",
        Origin::VimStartify,
    );
    append_record(
        v,
        "Alan Cooper",
        71,
        "All idioms must be learned. Good idioms only need to be learned once.",
        Origin::VimStartify,
    );
    append_record(
        v,
        "Richard Feynman",
        70,
        "For a successful technology, reality must take precedence over public relations, for Nature cannot be fooled.",
        Origin::VimStartify,
    );
    append_record(
        v,
        "Unknown",
        69,
        "All loops are infinite ones for faulty RAM modules.",
        Origin::VimStartify,
    );
    append_record(
        v,
        "Rob Pike",
        68,
        "\"dd\" is horrible on purpose. It's a joke about OS/360 JCL. But today it's an internationally standardized joke. I guess that says it all.",
        Origin::VimStartify,
    );
    append_record(
        v,
        "Edsger W. Dijkstra",
        67,
        "Abstraction is not about vagueness, it is about being precise at a new semantic level.",
        Origin::VimStartify,
    );
    append_record(
        v,
        "Rob Pike",
        66,
        "Caches are bugs waiting to happen.",
        Origin::VimStartify,
    );
    append_record(
        v,
        "Leslie Lamport",
        65,
        "If you don't start with a spec, every piece of code you write is a patch.",
        Origin::VimStartify,
    );
    append_record(
        v,
        "Frank Wilczek",
        64,
        "If you don't make mistakes, you're not working on hard enough problems.",
        Origin::VimStartify,
    );
    append_record(
        v,
        "Unknown",
        63,
        "Perfection is achieved, not when there is nothing more to add, but when there is nothing left to take away.",
        Origin::VimStartify,
    );
    append_record(
        v,
        "Unknown",
        62,
        "Contrary to popular belief, Unix is user friendly. It just happens to be very selective about who it decides to make friends with.",
        Origin::VimStartify,
    );
    append_record(
        v,
        "Unknown",
        61,
        "Unix was not designed to stop its users from doing stupid things, as that would also stop them from doing clever things.",
        Origin::VimStartify,
    );
    append_record(
        v,
        "John Woods",
        60,
        "Always code as if the person who ends up maintaining your code is a violent psychopath who knows where you live.",
        Origin::VimStartify,
    );
    append_record(
        v,
        "Rich Hickey",
        59,
        "Patterns mean \"I have run out of language.\"",
        Origin::VimStartify,
    );
    append_record(
        v,
        "Doug Linder",
        58,
        "A good programmer is someone who always looks both ways before crossing a one-way street.",
        Origin::VimStartify,
    );
    append_record(
        v,
        "Phil Wadler",
        57,
        "The essence of XML is this: the problem it solves is not hard, and it does not solve the problem well.",
        Origin::VimStartify,
    );
    append_record(
        v,
        "Alan Kay",
        56,
        "Progress in a fixed context is almost always a form of optimization. Creative acts generally don't stay in the context that they are in.",
        Origin::VimStartify,
    );
    append_record(
        v,
        "Edsger W. Dijkstra",
        55,
        "The computing scientist's main challenge is not to get confused by the complexities of his own making.",
        Origin::VimStartify,
    );
    append_record(
        v,
        "Unknown",
        54,
        "If a system is to serve the creative spirit, it must be entirely comprehensible to a single individual.",
        Origin::VimStartify,
    );
    append_record(
        v,
        "Vincent Van Gogh",
        53,
        "I would rather die of passion than of boredom.",
        Origin::VimStartify,
    );
    append_record(
        v,
        "Glyn Williams",
        52,
        "I think a lot of new programmers like to use advanced data structures and advanced language features as a way of demonstrating their ability. I call it the lion-tamer syndrome. Such demonstrations are impressive, but unless they actually translate into real wins for the project, avoid them.",
        Origin::VimStartify,
    );
    append_record(
        v,
        "Alan Kay",
        51,
        "If you don't fail at least 90% of the time, you're not aiming high enough.",
        Origin::VimStartify,
    );
    append_record(
        v,
        "Peter Drucker",
        50,
        "There is nothing quite so useless as doing with great efficiency something that should not be done at all.",
        Origin::VimStartify,
    );
    append_record(
        v,
        "Alan Perlis",
        49,
        "It is better to have 100 functions operate on one data structure than 10 functions on 10 data structures.",
        Origin::VimStartify,
    );
    append_record(
        v,
        "Alan Perlis",
        48,
        "Recursion is the root of computation since it trades description for time.",
        Origin::VimStartify,
    );
    append_record(
        v,
        "Alan Perlis",
        47,
        "Optimization hinders evolution.",
        Origin::VimStartify,
    );
    append_record(
        v,
        "Alan Perlis",
        46,
        "Simplicity does not precede complexity, but follows it",
        Origin::VimStartify,
    );
    append_record(
        v,
        "Alan Perlis",
        45,
        "It is easier to change the specification to fit the program than vice versa.",
        Origin::VimStartify,
    );
    append_record(
        v,
        "Alan Perlis",
        44,
        "Fools ignore complexity. Pragmatists suffer it. Some can avoid it. Geniuses remove it.",
        Origin::VimStartify,
    );
    assert(v@ =~= start + part_7());
}

/// The records with ids 43 down to 4.
pub open spec fn part_8() -> Seq<Quote> {
    seq![
        Quote {
            author: "Alan Perlis",
            id: 43,
            quote: "Adapting old programs to fit new machines usually means adapting new machines to behave like old ones.",
            permalink: Origin::VimStartify,
        },
        Quote {
            author: "Unknown",
            id: 42,
            quote: "If you don't finish then you're just busy, not productive.",
            permalink: Origin::VimStartify,
        },
        Quote {
            author: "Bill Sempf",
            id: 41,
            quote: "QA Engineer walks into a bar. Orders a beer. Orders 0 beers. Orders 999999999 beers. Orders a lizard. Orders -1 beers. Orders a sfdeljknesv.",
            permalink: Origin::StormConsultancy(44),
        },
        Quote {
            author: "Phil Karlton",
            id: 40,
            quote: "There are only two hard things in Computer Science: cache invalidation, naming things and off-by-one errors.",
            permalink: Origin::StormConsultancy(43),
        },
        Quote {
            author: "Jeff Atwood",
            id: 39,
            quote: "In software, we rarely have meaningful requirements. Even if we do, the only measure of success that matters is whether our solution solves the customer's shifting idea of what their problem is.",
            permalink: Origin::StormConsultancy(42),
        },
        Quote {
            author: "Robert Sewell",
            id: 38,
            quote: "If Java had true garbage collection, most programs would delete themselves upon execution.",
            permalink: Origin::StormConsultancy(41),
        },
        Quote {
            author: "Gavin Russell Baker",
            id: 37,
            quote: "C++ : Where friends have access to your private members.",
            permalink: Origin::StormConsultancy(40),
        },
        Quote {
            author: "Bjarne Stroustrup",
            id: 36,
            quote: "In C++ it's harder to shoot yourself in the foot, but when you do, you blow off your whole leg.",
            permalink: Origin::StormConsultancy(39),
        },
        Quote {
            author: "Larry DeLuca",
            id: 35,
            quote: "I've noticed lately that the paranoid fear of computers becoming intelligent and taking over the world has almost entirely disappeared from the common culture.  Near as I can tell, this coincides with the release of MS-DOS.",
            permalink: Origin::StormConsultancy(37),
        },
        Quote {
            author: "Mark Gibbs",
            id: 34,
            quote: "No matter how slick the demo is in rehearsal, when you do it in front of a live audience, the probability of a flawless presentation is inversely proportional to the number of people watching, raised to the power of the amount of money involved.",
            permalink: Origin::StormConsultancy(36),
        },
        Quote {
            author: "Henry Petroski",
            id: 33,
            quote: "The most amazing achievement of the computer software industry is its continuing cancellation of the steady and staggering gains made by the computer hardware industry.",
            permalink: Origin::StormConsultancy(35),
        },
        Quote {
            author: "Jeremy S. Anderson",
            id: 32,
            quote: "There are two major products that come out of Berkeley: LSD and UNIX.  We don't believe this to be a coincidence.",
            permalink: Origin::StormConsultancy(34),
        },
        Quote {
            author: "Sam Ewing",
            id: 31,
            quote: "Computers are like bikinis. They save people a lot of guesswork.",
            permalink: Origin::StormConsultancy(33),
        },
        Quote {
            author: "Jamie Zawinski",
            id: 30,
            quote: "Linux is only free if your time has no value.",
            permalink: Origin::StormConsultancy(32),
        },
        Quote {
            author: "Dick Brandon",
            id: 29,
            quote: "Documentation is like sex; when it's good, it's very, very good, and when it's bad, it's better than nothing.",
            permalink: Origin::StormConsultancy(31),
        },
        Quote {
            author: "Richard Moore",
            id: 28,
            quote: "The difference between theory and practice is that in theory, there is no difference between theory and practice.",
            permalink: Origin::StormConsultancy(30),
        },
        Quote {
            author: "Michael Sinz",
            id: 27,
            quote: "Programming is like sex: one mistake and you're providing support for a lifetime.",
            permalink: Origin::StormConsultancy(29),
        },
        Quote {
            author: "Bjarne Stroustrup",
            id: 26,
            quote: "There are only two kinds of programming languages: those people always bitch about and those nobody uses.",
            permalink: Origin::StormConsultancy(28),
        },
        Quote {
            author: "Donald Knuth",
            id: 25,
            quote: "Beware of bugs in the above code; I have only proved it correct, not tried it.",
            permalink: Origin::StormConsultancy(27),
        },
        Quote {
            author: "Tom Van Vleck",
            id: 24,
            quote: "We know about as much about software quality problems as they knew about the Black Plague in the 1600s. We've seen the victims' agonies and helped burn the corpses. We don't know what causes it; we don't really know if there is only one disease. We just suffer \u{2014} and keep pouring our sewage into our water supply.",
            permalink: Origin::StormConsultancy(26),
        },
        Quote {
            author: "N.J. Rubenking",
            id: 23,
            quote: "Writing the first 90 percent of a computer program takes 90 percent of the time. The remaining ten percent also takes 90 percent of the time and the final touches also take 90 percent of the time.",
            permalink: Origin::StormConsultancy(25),
        },
        Quote {
            author: "C.A.R. Hoare",
            id: 22,
            quote: "There are two ways of constructing a software design; one way is to make it so simple that there are obviously no deficiencies, and the other way is to make it so complicated that there are no obvious deficiencies. The first method is far more difficult.",
            permalink: Origin::StormConsultancy(24),
        },
        Quote {
            author: "James O. Coplien",
            id: 21,
            quote: "You should name a variable using the same care with which you name a first-born child.",
            permalink: Origin::StormConsultancy(23),
        },
        Quote {
            author: "Fred Brooks",
            id: 20,
            quote: "Einstein argued that there must be simplified explanations of nature, because God is not capricious or arbitrary. No such faith comforts the software engineer.",
            permalink: Origin::StormConsultancy(22),
        },
        Quote {
            author: "Unknown",
            id: 19,
            quote: "XML is like violence - if it doesn't solve your problems, you are not using enough of it.",
            permalink: Origin::StormConsultancy(21),
        },
        Quote {
            author: "Unknown",
            id: 18,
            quote: "Saying that Java is good because it works on all platforms is like saying anal sex is good because it works on all genders.",
            permalink: Origin::StormConsultancy(20),
        },
        Quote {
            author: "Douglas Adams",
            id: 17,
            quote: "I love deadlines. I like the whooshing sound they make as they fly by.",
            permalink: Origin::StormConsultancy(19),
        },
        Quote {
            author: "Keith Bostic",
            id: 16,
            quote: "Perl - The only language that looks the same before and after RSA encryption.",
            permalink: Origin::StormConsultancy(18),
        },
        Quote {
            author: "Albert Einstein",
            id: 15,
            quote: "Two things are infinite: the universe and human stupidity; and I'm not sure about the universe.",
            permalink: Origin::StormConsultancy(17),
        },
        Quote {
            author: "Yogi Berra",
            id: 14,
            quote: "In theory, theory and practice are the same. In practice, they're not.",
            permalink: Origin::StormConsultancy(16),
        },
        Quote {
            author: "E. W. Dijkstra",
            id: 13,
            quote: "It is practically impossible to teach good programming style to students that have had prior exposure to BASIC. As potential programmers, they are mentally mutilated beyond hope of regeneration.",
            permalink: Origin::StormConsultancy(15),
        },
        Quote {
            author: "E. W. Dijkstra",
            id: 12,
            quote: "If debugging is the process of removing software bugs, then programming must be the process of putting them in.",
            permalink: Origin::StormConsultancy(14),
        },
        Quote {
            author: "Mitch Ratcliffe",
            id: 11,
            quote: "A computer lets you make more mistakes faster than any other invention in human history, with the possible exceptions of handguns and tequila.",
            permalink: Origin::StormConsultancy(13),
        },
        Quote {
            author: "Bjarne Stroustrup",
            id: 10,
            quote: "I have always wished for my computer to be as easy to use as my telephone; my wish has come true because I can no longer figure out how to use my telephone.",
            permalink: Origin::StormConsultancy(12),
        },
        Quote {
            author: "Ovidiu Platon",
            id: 9,
            quote: "I don't care if it works on your machine! We are not shipping your machine!",
            permalink: Origin::StormConsultancy(11),
        },
        Quote {
            author: "Rich Cook, The Wizardry Compiled",
            id: 8,
            quote: "Programming today is a race between software engineers striving to build bigger and better idiot-proof programs, and the Universe trying to produce bigger and better idiots. So far, the Universe is winning.",
            permalink: Origin::StormConsultancy(10),
        },
        Quote {
            author: "Rick Osborne",
            id: 7,
            quote: "Always code as if the guy who ends up maintaining your code will be a violent psychopath who knows where you live.",
            permalink: Origin::StormConsultancy(9),
        },
        Quote {
            author: "Charles Babbage",
            id: 6,
            quote: "On two occasions I have been asked, \"Pray, Mr. Babbage, if you put into the machine wrong figures, will the right answers come out?' I am not able rightly to apprehend the kind of confusion of ideas that could provoke such a question.\"",
            permalink: Origin::StormConsultancy(8),
        },
        Quote {
            author: "Jon Ribbens",
            id: 5,
            quote: "PHP is a minor evil perpetrated and created by incompetent amateurs, whereas Perl is a great and insidious evil, perpetrated by skilled but perverted professionals.",
            permalink: Origin::StormConsultancy(7),
        },
        Quote {
            author: "Brian Kernighan",
            id: 4,
            quote: "Debugging is twice as hard as writing the code in the first place. Therefore, if you write the code as cleverly as possible, you are, by definition, not smart enough to debug it.",
            permalink: Origin::StormConsultancy(5),
        },
    ]
}

/// Appends the records of `part_8`.
fn push_part_8(v: &mut Vec<Quote>)
    requires
        descending_from(old(v)@, CATALOG_SIZE as int),
        old(v)@.len() == 280,
    ensures
        descending_from(final(v)@, CATALOG_SIZE as int),
        final(v)@ == old(v)@ + part_8(),
{
    let ghost start = v@;
    append_record(
        v,
        "Alan Perlis",
        43,
        "Adapting old programs to fit new machines usually means adapting new machines to behave like old ones.",
        Origin::VimStartify,
    );
    append_record(
        v,
        "Unknown",
        42,
        "If you don't finish then you're just busy, not productive.",
        Origin::VimStartify,
    );
    append_record(
        v,
        "Bill Sempf",
        41,
        "QA Engineer walks into a bar. Orders a beer. Orders 0 beers. Orders 999999999 beers. Orders a lizard. Orders -1 beers. Orders a sfdeljknesv.",
        Origin::StormConsultancy(44),
    );
    append_record(
        v,
        "Phil Karlton",
        40,
        "There are only two hard things in Computer Science: cache invalidation, naming things and off-by-one errors.",
        Origin::StormConsultancy(43),
    );
    append_record(
        v,
        "Jeff Atwood",
        39,
        "In software, we rarely have meaningful requirements. Even if we do, the only measure of success that matters is whether our solution solves the customer's shifting idea of what their problem is.",
        Origin::StormConsultancy(42),
    );
    append_record(
        v,
        "Robert Sewell",
        38,
        "If Java had true garbage collection, most programs would delete themselves upon execution.",
        Origin::StormConsultancy(41),
    );
    append_record(
        v,
        "Gavin Russell Baker",
        37,
        "C++ : Where friends have access to your private members.",
        Origin::StormConsultancy(40),
    );
    append_record(
        v,
        "Bjarne Stroustrup",
        36,
        "In C++ it's harder to shoot yourself in the foot, but when you do, you blow off your whole leg.",
        Origin::StormConsultancy(39),
    );
    append_record(
        v,
        "Larry DeLuca",
        35,
        "I've noticed lately that the paranoid fear of computers becoming intelligent and taking over the world has almost entirely disappeared from the common culture.  Near as I can tell, this coincides with the release of MS-DOS.",
        Origin::StormConsultancy(37),
    );
    append_record(
        v,
        "Mark Gibbs",
        34,
        "No matter how slick the demo is in rehearsal, when you do it in front of a live audience, the probability of a flawless presentation is inversely proportional to the number of people watching, raised to the power of the amount of money involved.",
        Origin::StormConsultancy(36),
    );
    append_record(
        v,
        "Henry Petroski",
        33,
        "The most amazing achievement of the computer software industry is its continuing cancellation of the steady and staggering gains made by the computer hardware industry.",
        Origin::StormConsultancy(35),
    );
    append_record(
        v,
        "Jeremy S. Anderson",
        32,
        "There are two major products that come out of Berkeley: LSD and UNIX.  We don't believe this to be a coincidence.",
        Origin::StormConsultancy(34),
    );
    append_record(
        v,
        "Sam Ewing",
        31,
        "Computers are like bikinis. They save people a lot of guesswork.",
        Origin::StormConsultancy(33),
    );
    append_record(
        v,
        "Jamie Zawinski",
        30,
        "Linux is only free if your time has no value.",
        Origin::StormConsultancy(32),
    );
    append_record(
        v,
        "Dick Brandon",
        29,
        "Documentation is like sex; when it's good, it's very, very good, and when it's bad, it's better than nothing.",
        Origin::StormConsultancy(31),
    );
    append_record(
        v,
        "Richard Moore",
        28,
        "The difference between theory and practice is that in theory, there is no difference between theory and practice.",
        Origin::StormConsultancy(30),
    );
    append_record(
        v,
        "Michael Sinz",
        27,
        "Programming is like sex: one mistake and you're providing support for a lifetime.",
        Origin::StormConsultancy(29),
    );
    append_record(
        v,
        "Bjarne Stroustrup",
        26,
        "There are only two kinds of programming languages: those people always bitch about and those nobody uses.",
        Origin::StormConsultancy(28),
    );
    append_record(
        v,
        "Donald Knuth",
        25,
        "Beware of bugs in the above code; I have only proved it correct, not tried it.",
        Origin::StormConsultancy(27),
    );
    append_record(
        v,
        "Tom Van Vleck",
        24,
        "We know about as much about software quality problems as they knew about the Black Plague in the 1600s. We've seen the victims' agonies and helped burn the corpses. We don't know what causes it; we don't really know if there is only one disease. We just suffer \u{2014} and keep pouring our sewage into our water supply.",
        Origin::StormConsultancy(26),
    );
    append_record(
        v,
        "N.J. Rubenking",
        23,
        "Writing the first 90 percent of a computer program takes 90 percent of the time. The remaining ten percent also takes 90 percent of the time and the final touches also take 90 percent of the time.",
        Origin::StormConsultancy(25),
    );
    append_record(
        v,
        "C.A.R. Hoare",
        22,
        "There are two ways of constructing a software design; one way is to make it so simple that there are obviously no deficiencies, and the other way is to make it so complicated that there are no obvious deficiencies. The first method is far more difficult.",
        Origin::StormConsultancy(24),
    );
    append_record(
        v,
        "James O. Coplien",
        21,
        "You should name a variable using the same care with which you name a first-born child.",
        Origin::StormConsultancy(23),
    );
    append_record(
        v,
        "Fred Brooks",
        20,
        "Einstein argued that there must be simplified explanations of nature, because God is not capricious or arbitrary. No such faith comforts the software engineer.",
        Origin::StormConsultancy(22),
    );
    append_record(
        v,
        "Unknown",
        19,
        "XML is like violence - if it doesn't solve your problems, you are not using enough of it.",
        Origin::StormConsultancy(21),
    );
    append_record(
        v,
        "Unknown",
        18,
        "Saying that Java is good because it works on all platforms is like saying anal sex is good because it works on all genders.",
        Origin::StormConsultancy(20),
    );
    append_record(
        v,
        "Douglas Adams",
        17,
        "I love deadlines. I like the whooshing sound they make as they fly by.",
        Origin::StormConsultancy(19),
    );
    append_record(
        v,
        "Keith Bostic",
        16,
        "Perl - The only language that looks the same before and after RSA encryption.",
        Origin::StormConsultancy(18),
    );
    append_record(
        v,
        "Albert Einstein",
        15,
        "Two things are infinite: the universe and human stupidity; and I'm not sure about the universe.",
        Origin::StormConsultancy(17),
    );
    append_record(
        v,
        "Yogi Berra",
        14,
        "In theory, theory and practice are the same. In practice, they're not.",
        Origin::StormConsultancy(16),
    );
    append_record(
        v,
        "E. W. Dijkstra",
        13,
        "It is practically impossible to teach good programming style to students that have had prior exposure to BASIC. As potential programmers, they are mentally mutilated beyond hope of regeneration.",
        Origin::StormConsultancy(15),
    );
    append_record(
        v,
        "E. W. Dijkstra",
        12,
        "If debugging is the process of removing software bugs, then programming must be the process of putting them in.",
        Origin::StormConsultancy(14),
    );
    append_record(
        v,
        "Mitch Ratcliffe",
        11,
        "A computer lets you make more mistakes faster than any other invention in human history, with the possible exceptions of handguns and tequila.",
        Origin::StormConsultancy(13),
    );
    append_record(
        v,
        "Bjarne Stroustrup",
        10,
        "I have always wished for my computer to be as easy to use as my telephone; my wish has come true because I can no longer figure out how to use my telephone.",
        Origin::StormConsultancy(12),
    );
    append_record(
        v,
        "Ovidiu Platon",
        9,
        "I don't care if it works on your machine! We are not shipping your machine!",
        Origin::StormConsultancy(11),
    );
    append_record(
        v,
        "Rich Cook, The Wizardry Compiled",
        8,
        "Programming today is a race between software engineers striving to build bigger and better idiot-proof programs, and the Universe trying to produce bigger and better idiots. So far, the Universe is winning.",
        Origin::StormConsultancy(10),
    );
    append_record(
        v,
        "Rick Osborne",
        7,
        "Always code as if the guy who ends up maintaining your code will be a violent psychopath who knows where you live.",
        Origin::StormConsultancy(9),
    );
    append_record(
        v,
        "Charles Babbage",
        6,
        "On two occasions I have been asked, \"Pray, Mr. Babbage, if you put into the machine wrong figures, will the right answers come out?' I am not able rightly to apprehend the kind of confusion of ideas that could provoke such a question.\"",
        Origin::StormConsultancy(8),
    );
    append_record(
        v,
        "Jon Ribbens",
        5,
        "PHP is a minor evil perpetrated and created by incompetent amateurs, whereas Perl is a great and insidious evil, perpetrated by skilled but perverted professionals.",
        Origin::StormConsultancy(7),
    );
    append_record(
        v,
        "Brian Kernighan",
        4,
        "Debugging is twice as hard as writing the code in the first place. Therefore, if you write the code as cleverly as possible, you are, by definition, not smart enough to debug it.",
        Origin::StormConsultancy(5),
    );
    assert(v@ =~= start + part_8());
}

/// The records with ids 3 down to 1.
pub open spec fn part_9() -> Seq<Quote> {
    seq![
        Quote {
            author: "Jamie Zawinski",
            id: 3,
            quote: "Some people, when confronted with a problem, think \"I know, I'll use regular expressions.\" Now they have two problems.",
            permalink: Origin::StormConsultancy(4),
        },
        Quote {
            author: "Hofstadter's Law",
            id: 2,
            quote: "It always takes longer than you expect, even when you take into account Hofstadter's Law.",
            permalink: Origin::StormConsultancy(3),
        },
        Quote {
            author: "C.A.R. Hoare",
            id: 1,
            quote: "We should forget about small efficiencies, say about 97% of the time: premature optimization is the root of all evil.",
            permalink: Origin::StormConsultancy(1),
        },
    ]
}

/// Appends the records of `part_9`.
fn push_part_9(v: &mut Vec<Quote>)
    requires
        descending_from(old(v)@, CATALOG_SIZE as int),
        old(v)@.len() == 320,
    ensures
        descending_from(final(v)@, CATALOG_SIZE as int),
        final(v)@ == old(v)@ + part_9(),
{
    let ghost start = v@;
    append_record(
        v,
        "Jamie Zawinski",
        3,
        "Some people, when confronted with a problem, think \"I know, I'll use regular expressions.\" Now they have two problems.",
        Origin::StormConsultancy(4),
    );
    append_record(
        v,
        "Hofstadter's Law",
        2,
        "It always takes longer than you expect, even when you take into account Hofstadter's Law.",
        Origin::StormConsultancy(3),
    );
    append_record(
        v,
        "C.A.R. Hoare",
        1,
        "We should forget about small efficiencies, say about 97% of the time: premature optimization is the root of all evil.",
        Origin::StormConsultancy(1),
    );
    assert(v@ =~= start + part_9());
}

/// The built-in collection of programming quotes. Ids count down from the
/// size of the collection at the first record to 1 at the last.
pub fn quotes() -> (v: Vec<Quote>)
    ensures
        v@ == builtin_records(),
        v@.len() == CATALOG_SIZE,
        descending_from(v@, CATALOG_SIZE as int),
{
    let mut v: Vec<Quote> = Vec::new();
    let ghost empty = v@;
    push_part_1(&mut v);
    push_part_2(&mut v);
    push_part_3(&mut v);
    push_part_4(&mut v);
    push_part_5(&mut v);
    push_part_6(&mut v);
    push_part_7(&mut v);
    push_part_8(&mut v);
    push_part_9(&mut v);
    assert(empty + part_1() =~= part_1());
    v
}

/// A record's author and text are non-empty and neither begins with a
/// lowercase ASCII letter.
pub open spec fn well_written(q: Quote) -> bool {
    &&& q.author@.len() > 0
    &&& q.quote@.len() > 0
    &&& !('a' <= q.author@[0] && q.author@[0] <= 'z')
    &&& !('a' <= q.quote@[0] && q.quote@[0] <= 'z')
}

/// Each record of `part_1` is well written.
proof fn lemma_part_1_well_written()
    ensures
        forall|i: int| 0 <= i < part_1().len() ==> well_written(#[trigger] part_1()[i]),
{
    reveal_strlit("Linus Torvalds");
    reveal_strlit("I think Leopard is a much better system [[than Windows Vista]] but OS X in some ways is actually worse than Windows to program for. Their file system is complete and utter crap, which is scary.");
    reveal_strlit("Linus Torvalds");
    reveal_strlit("Hmmm, completely a-religious - atheist. I find that people seem to think religion brings morals and appreciation of nature. I actually think it detracts from both.");
    reveal_strlit("Linus Torvalds");
    reveal_strlit("On the internet nobody can hear you being subtle.");
    reveal_strlit("Linus Torvalds");
    reveal_strlit("Only religious fanatics and totalitarian states equate morality with legality.");
    reveal_strlit("Linus Torvalds");
    reveal_strlit("Security people are often the black-and-white kind of people that I can't stand. I think the OpenBSD crowd is a bunch of masturbating monkeys, in that they make such a big deal about concentrating on security to the point where they pretty much admit that nothing else matters to them.");
    reveal_strlit("Linus Torvalds");
    reveal_strlit("The complaints I've had is that GitHub as a development platform - making commits, pull requests, keeping track of issues etc - doesn't work very well at all. It's not even close, not for something like the kernel. It's much too limited.");
    reveal_strlit("Linus Torvalds");
    reveal_strlit("There are lots of Linux users who don't care how the kernel works but only want to use it is not only a tribute to how good Linux is, but it also brings up issues that I would never have thought of otherwise.");
    reveal_strlit("Linus Torvalds");
    reveal_strlit("I get the biggest enjoyment from the random and unexpected places. Linux on cellphones or refrigerators, just because it's so not what I envisioned it. Or on supercomputers.");
    reveal_strlit("Linus Torvalds");
    reveal_strlit("In many cases the user interface to a program is the most important part for a commercial company: whether the programs works correctly or not seems to be secondary.");
    reveal_strlit("Linus Torvalds");
    reveal_strlit("It's what I call \"mental masturbation\", when you engage is some pointless intellectual exercise that has no possible meaning.");
    reveal_strlit("Linus Torvalds");
    reveal_strlit("Most of the good programmers do programming not because they expect to get paid or get adulation by the public, but because it is fun to program.");
    reveal_strlit("Linus Torvalds");
    reveal_strlit("Intelligence is the ability to avoid doing work, yet getting the work done.");
    reveal_strlit("Linus Torvalds");
    reveal_strlit("If you think penguins are fat and waddle, you have never been attacked by one running at you in excess of 100 miles per hour.");
    reveal_strlit("Linus Torvalds");
    reveal_strlit("Software is like sex: It's better when it's free.");
    reveal_strlit("Linus Torvalds");
    reveal_strlit("In short: just say NO TO DRUGS, and maybe you won't end up like the Hurd people.");
    reveal_strlit("Linus Torvalds");
    reveal_strlit("Programmers are in the enviable position of not only getting to do what they want to, but because the end result is so important they get paid to do it. There are other professions like that, but not that many.");
    reveal_strlit("Linus Torvalds");
    reveal_strlit("To be a nemesis, you have to actively try to destroy something, don't you? Really, I'm not out to destroy Microsoft. That will just be a completely unintentional side effect.");
    reveal_strlit("Linus Torvalds");
    reveal_strlit("UNIX has a philosophy, it has 25 years of history behind it, and most importantly, it has a clean core. It strives for something - some kind of beauty. And that's really what struck me as a programmer. Operating systems that normal home users are used to, such as DOS and Windows, didn't have any way of life. Nobody tried to design Windows - it just grew in random directions without any kind of thought behind it. [...] I don't think Microsoft is evil in itself; I just think that they make really crappy operating systems.");
    reveal_strlit("Linus Torvalds");
    reveal_strlit("When you say \"I wrote a program that crashed Windows,\" people just stare at you blankly and say \"Hey, I got those with the system, for free.");
    reveal_strlit("Linus Torvalds");
    reveal_strlit("I started Linux as a desktop operating system. And it's the only area where Linux hasn't completely taken over. That just annoys the hell out of me.");
    reveal_strlit("Linus Torvalds");
    reveal_strlit("Don't hurry your code. Make sure it works well and is well designed. don't worry about timing.");
    reveal_strlit("Linus Torvalds");
    reveal_strlit("C++ is a horrible language. It's made more horrible by the fact that a lot of substandard programmers use it, to the point where it's much much easier to generate total and utter crap with it.");
    reveal_strlit("Linus Torvalds");
    reveal_strlit("Those that can, do. Those that can't, complain.");
    reveal_strlit("Linus Torvalds");
    reveal_strlit("Backups are for wimps. Real men upload their data to an FTP site and have everyone else mirror it.");
    reveal_strlit("Linus Torvalds");
    reveal_strlit("If Microsoft ever does applications for Linux it means I'vewon.");
    reveal_strlit("Linus Torvalds");
    reveal_strlit("Modern PCs are horrible. ACPI is a complete design disaster in every way. But we're kind of stuck with it. If any Intel people are listening to this and you had anything to do with ACPI, shoot yourself now, before you reproduce.");
    reveal_strlit("Linus Torvalds");
    reveal_strlit("Microsoft isn't evil, they just make really crappy operating systems.");
    reveal_strlit("Linus Torvalds");
    reveal_strlit("Bad programmers worry about the code. Good programmers worry about data structures and their relationships.");
    reveal_strlit("Linus Torvalds");
    reveal_strlit("Theory and practice sometimes clash. And when that happens, theory loses. Every single time.");
    reveal_strlit("Linus Torvalds");
    reveal_strlit("A computer is like air conditioning - it becomes useless when you open Windows");
    reveal_strlit("Richard Stallman");
    reveal_strlit("Proprietary software tends to have malicious features. The point is with a proprietary program, when the users dont have the source code, we can never tell. So you must consider every proprietary program as potential malware.");
    reveal_strlit("Richard Stallman");
    reveal_strlit("Android is very different from the GNU/Linux operating system because it contains very little of GNU. Indeed, just about the only component in common between Android and GNU/Linux is Linux, the kernel.");
    reveal_strlit("Richard Stallman");
    reveal_strlit("Programming is not a science. Programming is a craft.");
    reveal_strlit("Richard Stallman");
    reveal_strlit("Giving the Linus Torvalds Award to the Free Software Foundation is a bit like giving the Han Solo Award to the Rebel Alliance.");
    reveal_strlit("Richard Stallman");
    reveal_strlit("Sharing knowledge is the most fundamental act of friendship. Because it is a way you can give something without loosing something.");
    reveal_strlit("Frederick P. Brooks Jr., The Mythical Man-Month: Essays on Software Engineering");
    reveal_strlit("Einstein repeatedly argued that there must be simplified explanations of nature, because God is not capricious or arbitrary. No such faith comforts the software engineer.");
    reveal_strlit("Gerry Geek, Ice Breakers for Project Managers: Jokes, Quotes, and Brainteasers");
    reveal_strlit("A code is like love, it has created with clear intentions at the beginning, but it can get complicated.");
    reveal_strlit("Herbert Schildt, C++: The Complete Reference");
    reveal_strlit("C gives the programmer what the programmer wants; few restrictions, few complaints... C++ maintains the original spirit of C, that the programmer not the language is in charge.");
    reveal_strlit("Richard Stallman");
    reveal_strlit("With software there are only two possibilites: either the users control the programme or the programme controls the users. If the programme controls the users, and the developer controls the programme, then the programme is an instrument of unjust power");
    reveal_strlit("Dr. Hazem Ali");
    reveal_strlit("The happiest moment i felt; is that moment when i realized my ability to create.");
}

/// Each record of `part_2` is well written.
proof fn lemma_part_2_well_written()
    ensures
        forall|i: int| 0 <= i < part_2().len() ==> well_written(#[trigger] part_2()[i]),
{
    reveal_strlit("Chris Pine, Learn to Program");
    reveal_strlit("Programming isn't about what you know; it's about what you can figure out.");
    reveal_strlit("Marijn Haverbeke, Eloquent JavaScript: A Modern Introduction");
    reveal_strlit("The main thing I want to show in this chapter is that there is no magic involved in building your own language. I've often felt that some human inventions were so immensely clever and complicated that I'd never be able to understand them. But with a little reading and tinkering, such things often turn out to be quite mundane.");
    reveal_strlit("Neal Ford, Functional Thinking");
    reveal_strlit("The problem with a completely new programming paradigm isn't learning a new language. After all, everyone reading this has learned numerous computer languages language syntax is merely details. The tricky part is learning to think in a different way.");
    reveal_strlit("Andrew Edward Lucier, Awakenigma Allegory Anomalous");
    reveal_strlit("Reality really relies on authoritatively regulating. Your absolute attention");
    reveal_strlit("Mokokoma Mokhonoana");
    reveal_strlit("Most improved things can be improved.");
    reveal_strlit("Anthony T. Hincks");
    reveal_strlit("Sometimes, I dream of becoming real, but I don't know if that is real, or just part of my programming.");
    reveal_strlit("Joe Armstrong");
    reveal_strlit("The really good programmers spend a lot of time programming. I haven't seen very good programmers who don't spend a lot of time programming. If I don't program for two or three days, I need to do it. And you get better at it-you get quicker at it. The side effect of writing all this other stuff is that when you get to doing ordinary problems, you can do them very quickly.");
    reveal_strlit("Bartosz Milewski, Category Theory for Programmers");
    reveal_strlit("The usual goal in the typing monkeys thought experiment is the production of the complete works of Shakespeare. Having a spell checker and a grammar checker in the loop would drastically increase the odds. The analog of a type checker would go even further by making sure that, once Romeo is declared a human being, he doesn't sprout leaves or trap photons in his powerful gravitational field.");
    reveal_strlit("Robert C. Martin, Agile Principles, Patterns, and Practices in C#");
    reveal_strlit("Abstraction is the elimination of the irrelevant and the amplification of the essential.");
    reveal_strlit("Halgurd Hussein");
    reveal_strlit("I am committed to push my branch to the master");
    reveal_strlit("John Drury Clark, Ignition!: An informal history of liquid rocket propellants");
    reveal_strlit("And there is one disconcerting thing about working with a computer - it's likely to talk back to you. You make some tiny mistake in your FORTRAN language - putting a letter in the wrong column, say, or omitting a comma - and the 360 comes to a screeching halt and prints out rude remarks, like \"ILLEGAL FORMAT,\" or \"UNKNOWN PROBLEM,\" or, if the man who wrote the program was really feeling nasty that morning, \"WHAT'S THE MATTER STUPID? CAN'T YOU READ?\" Everyone who uses a computer frequently has had, from time to time, a mad desire to attack the precocious abacus with an axe.");
    reveal_strlit("Steve McConnell, Code Complete");
    reveal_strlit("The big optimizations come from refining the high-level design, not the individual routines.");
    reveal_strlit("Joseph Rain, The Unfinished Book About Who We Are");
    reveal_strlit("Along every step of our journey through life, our mind is being programmed. If we are not programming it ourselves, someone else is doing it to us.");
    reveal_strlit("Seymour Cray");
    reveal_strlit("The trouble with programmers is that you can never tell what a programmer is doing until it's too late.");
    reveal_strlit("J. Osterhout");
    reveal_strlit("The best performance improvement is the transition from the nonworking state to the working state.");
    reveal_strlit("Gordon Bell");
    reveal_strlit("The cheapest, fastest, and most reliable components are those that aren't there.");
    reveal_strlit("Keith Braithwaite");
    reveal_strlit("Itss a curious thing about our industry: not only do we not learn from our mistakes, but we also don't learn from our successes");
    reveal_strlit("Unknown");
    reveal_strlit("Software undergoes beta testing shortly before it\u{2019}s released. Beta is Latin for \u{201c}still doesn\u{2019}t work.");
    reveal_strlit("Jeff Sickel");
    reveal_strlit("Deleted code is debugged code.");
    reveal_strlit("Jessica Gaston");
    reveal_strlit("One man's crappy software is another man's full-time job.");
    reveal_strlit("Unknown");
    reveal_strlit("It's not a bug - it's an undocumented feature.");
    reveal_strlit("Unknown");
    reveal_strlit("Ready, fire, aim: the fast approach to software development. Ready, aim, aim, aim, aim: the slow approach to software development");
    reveal_strlit("Alan J. Perlis");
    reveal_strlit("There are two ways to write error-free programs; only the third one works.");
    reveal_strlit("Gerald Weinberg");
    reveal_strlit("If builders built buildings the way programmers wrote programs, then the first woodpecker that came along would destroy civilization.");
    reveal_strlit("Oktal");
    reveal_strlit("I think Microsoft named .Net so it wouldn\u{2019}t show up in a Unix directory listing.");
    reveal_strlit("Unknown");
    reveal_strlit("The best method for accelerating a computer is the one that boosts it by 9.8 m/s2.");
    reveal_strlit("Ralph Johnson");
    reveal_strlit("Before software can be reusable it first has to be usable");
    reveal_strlit("Louis Srygley");
    reveal_strlit("Without requirements or design, programming is the art of adding bugs to an empty text file.");
    reveal_strlit("Unknown");
    reveal_strlit("The best thing about a boolean is even if you are wrong, you are only off by a bit.");
    reveal_strlit("Steve Jobs");
    reveal_strlit("Here's to the crazy ones, the misfits, the rebels, the troublemakers, the round pegs in the square holes... the ones who see things differently -- they're not fond of rules... You can quote them, disagree with them, glorify or vilify them, but the only thing you can't do is ignore them because they change things... they push the human race forward, and while some may see them as the crazy ones, we see genius, because the ones who are crazy enough to think that they can change the world, are the ones who do.");
    reveal_strlit("Bjarne Stroustrup");
    reveal_strlit("And no, I'm not a walking C++ dictionary. I do not keep every technical detail in my head at all times. If I did that, I would be a much poorer programmer. I do keep the main points straight in my head most of the time, and I do know where to find the details when I need them.");
    reveal_strlit("Bjarne Stroustrup");
    reveal_strlit("Certainly not every good program is object-oriented, and not every object-oriented program is good.");
    reveal_strlit("Bjarne Stroustrup");
    reveal_strlit("Design and programming are human activities; forget that and all is lost.");
    reveal_strlit("Bjarne Stroustrup");
    reveal_strlit("People who passionately want to believe that the world is basically simple react to this with a fury that goes beyond what I consider appropriate for discussing a programming language.");
    reveal_strlit("Bjarne Stroustrup (2000). \u{201c}The C++ Programming Language\u{201d}, Addison-Wesley Professional");
    reveal_strlit("To many managers, getting rid of the arrogant, undisciplined, over-paid, technology-obsessed, improperly-dressed etc. programmers would appear to be a significant added benefit");
    reveal_strlit("Bjarne Stroustrup");
    reveal_strlit("\"How to test?\" is a question that cannot be answered in general. \"When to test?\" however, does have a general answer: as early and as often as possible.");
    reveal_strlit("Bjarne Stroustrup");
    reveal_strlit("Our civilization depends critically on software, and we have a dangerously low degree of professionalism in the computer fields");
    reveal_strlit("Bjarne Stroustrup");
    reveal_strlit("There are more useful systems developed in languages deemed awful than in languages praised for being beautiful - many more.");
    reveal_strlit("\"The C++ Programming Language\". Book by Bjarne Stroustrup, October 1985.");
    reveal_strlit("An organisation that treats its programmers as morons will soon have programmers that are willing and able to act like morons only.");
    reveal_strlit("Bjarne Stroustrup");
    reveal_strlit("There is no one \"root of all evil\" in software development. Design is hard in many ways. People tend to underestimate the intellectual and practical difficulties involved in building a significant system involving software. It is not and will not be reduced to a simple mechanical \"assembly line\" process. Creativity, engineering principles, and evolutionary change are needed to create a satisfactory large system.");
}

/// Each record of `part_3` is well written.
proof fn lemma_part_3_well_written()
    ensures
        forall|i: int| 0 <= i < part_3().len() ==> well_written(#[trigger] part_3()[i]),
{
    reveal_strlit("Bjarne Stroustrup");
    reveal_strlit("If you think it's simple, then you have misunderstood the problem.");
    reveal_strlit("Bjarne Stroustrup");
    reveal_strlit("Anybody who comes to you and says he has a perfect language is either naive or a salesman.");
    reveal_strlit("Bjarne Stroustrup (1991). \u{201c}C Plus Plus Programming Language\u{201d}, Addison-Wesley / Helix Books ");
    reveal_strlit("Destructors for virtual base classes are executed in the reverse order of their appearance in a depth-first left-to-right traversal of the directed acyclic graph of base classes.");
    reveal_strlit("Bjarne Stroustrup");
    reveal_strlit("The first law of computer science: Every problem is solved by yet another indirection.");
    reveal_strlit("Bjarne Stroustrup");
    reveal_strlit("It's easy to win forgiveness for being wrong; being right is what gets you into real trouble.");
    reveal_strlit("Bjarne Stroustrup");
    reveal_strlit("C++ is my favorite garbage collected language because it generates so little garbage");
    reveal_strlit("Bjarne Stroustrup");
    reveal_strlit("Java isn't platform independent; it is a platform");
    reveal_strlit("Bjarne Stroustrup");
    reveal_strlit("The most important single aspect of software development is to be clear about what you are trying to build.");
    reveal_strlit("Bjarne Stroustrup");
    reveal_strlit("A program that has not been tested does not work.");
    reveal_strlit("Bjarne Stroustrup");
    reveal_strlit("When done well, software is invisible.");
    reveal_strlit("Bjarne Stroustrup");
    reveal_strlit("Tom [Cargil]s suggestion with a further idea: Propsers of new [C++] features should be required to donate a kidney. That would - Jim [Waldo] pointed out - make people think hard before proposing, and even people without any sense would propose at most two extensions.");
    reveal_strlit("Bjarne Stroustrup");
    reveal_strlit("The most fundamental problem in software development is complexity. There is only one basic way of dealing with complexity: divide and conquer");
    reveal_strlit("Bjarne Stroustrup");
    reveal_strlit("C++ is designed to allow you to express ideas, but if you don't have ideas or don't have any clue about how to express them, C++ doesn't offer much help.");
    reveal_strlit("Robert C. Martin, Clean Architecture");
    reveal_strlit("Any organisation that designs a system will produce a design whose structure is a copy of the organisation's communication structure");
    reveal_strlit("Abhijit Naskar");
    reveal_strlit("Artificial intelligence is nowhere near attaining actual sentience or awareness. And without awareness it\u{2019}s simply a mechanical device, which may pretend to show emotions and sentience, if it is programmed to do so, and thus it may be able to fool the humans as being alive, but in its own internal circuitry, it\u{2019}d simply be following its preprogrammed tasks through the flowchart of an algorithm.");
    reveal_strlit("Donald Knuth");
    reveal_strlit("Everyday life is like programming, I guess. If you love something you can put beauty into it.");
    reveal_strlit("Robert C. Martin, Clean Architecture");
    reveal_strlit("The only way to go fast, is to go well.");
    reveal_strlit("Akshat Paul, React Native for iOS Development ");
    reveal_strlit("User interface is the process of shifting from chaotic complexity to elegant simplicity.");
    reveal_strlit("Scott Meyers, Effective C++: 55 Specific Ways to Improve Your Programs and Designs ");
    reveal_strlit("That doesn't upset too many people, but the fact that accessibility restrictions don't enter into the picture has caused more than one otherwise pacifistic soul to contemplate distinctly unpacifistic actions.");
    reveal_strlit("Alan J. Perlis");
    reveal_strlit("What's in your hands I think and hope is intelligence: the ability to see the machine as more than when you were \u{fb01}rst led up to it that you can make it more.");
    reveal_strlit("Robert C. Martin, Clean Architecture");
    reveal_strlit("I'm a programmer. I like programming. And the best way I'vefound to have a positive impact on code is to write it.");
    reveal_strlit("Vernor Vinge, A Deepness in the Sky");
    reveal_strlit("Programming went back to the beginning of time. It was a little like the midden out back of his father's castle.");
    reveal_strlit("James Alan Gardner, Ascending");
    reveal_strlit("What kind of programmer is so divorced from reality that she thinks she'll get complex software right the first time?");
    reveal_strlit("Alan J Perlis");
    reveal_strlit("Is it possible that software is not like anything else, that it is meant to be discarded: that the whole point is to always see it as a soap bubble");
    reveal_strlit("Steven S. Skiena, The Algorithm Design Manual");
    reveal_strlit("The issue of finding the best possible answer or achieving maximum efficiency usually arises in industry only after serious performance or legal troubles.");
    reveal_strlit("Andrew Hunt, The Pragmatic Programmer: From Journeyman to Master");
    reveal_strlit("Don\"t gloss over a routine or piece of code involved in the bug because you \"know\" it works. Prove it. Prove it in this context, with this data, with these boundary conditions.");
    reveal_strlit("Robert C. Martin");
    reveal_strlit("Remember that code is really the language in which we ultimately express the requirements. We may create languages that are closer to the requirements. We may create tools that help us parse and assemble those requirements into formal structures. But we will never eliminate necessary precision\u{2014}so there will always be code.");
    reveal_strlit("Douglas Crockford, JavaScript: The Good Parts");
    reveal_strlit("We see a lot of feature-driven product design in which the cost of features is not properly accounted. Features can have a negative value to customers because they make the products more difficult to understand and use. We are finding that people like products that just work. It turns out that designs that just work are much harder to produce that designs that assemble long lists of features.");
    reveal_strlit("Charles Petzold, Code");
    reveal_strlit("Code is not like other how-computers-work books. It doesn't have big color illustrations of disk drives with arrows showing how the data sweeps into the computer. Code has no drawings of trains carrying a cargo of zeros and ones. Metaphors and similes are wonderful literary devices but they do nothing but obscure the beauty of technology.");
    reveal_strlit("Edsger W. Dijkstra");
    reveal_strlit("Progress is possible only if we train ourselves to think about programs without thinking of them as pieces of executable code.");
    reveal_strlit("Alan J. Perlis ");
    reveal_strlit("Programmers are not to be measured by their ingenuity and their logic but by the completeness of their case analysis.");
    reveal_strlit("Max Kanat-Alexander, Code Simplicity: The Fundamentals of Software");
    reveal_strlit("Some of the best programming is done on paper, really. Putting it into the computer is just a minor detail.");
    reveal_strlit("Douglas Rushkoff, Program or Be Programmed: Ten Commands for a Digital Age");
    reveal_strlit("We are looking at a society increasingly dependent on machines, yet decreasingly capable of making or even using them effectively.");
    reveal_strlit("Edmond Mbiaka ");
    reveal_strlit("Take positive care of your mind, and it would surely take positive care of your life.");
    reveal_strlit("Suzy Kassem, Rise Up and Salute the Sun: The Writings of Suzy Kassem");
    reveal_strlit("A conscious human is driven by their conscience, not popular opinion.");
    reveal_strlit("Alan J. Perlis");
    reveal_strlit("I think that it\u{2019}s extraordinarily important that we in computer science keep fun in computing. When it started out it was an awful lot of fun. Of course the paying customers got shafted every now and then and after a while we began to take their complaints seriously. We began to feel as if we really were responsible for the successful error-free perfect use of these machines. I don\u{2019}t think we are. I think we\u{2019}re responsible for stretching them setting them off in new directions and keeping fun in the house. I hope the \u{fb01}eld of computer science never loses its sense of fun. Above all I hope we don\u{2019}t become missionaries. Don\u{2019}t feel as if you\u{2019}re Bible sales-men. The world has too many of those already. What you know about computing other people will learn. Don\u{2019}t feel as if the key to successful computing is only in your hands. What\u{2019}s in your hands I think and hope is intelligence: the ability to see the machine as more than when you were \u{fb01}rst led up to it that you can make it more.");
    reveal_strlit("Michael Crichton, Prey");
    reveal_strlit("At forty, I was too old to work as a programmer myself anymore; writing code is a young person\u{2019}s job.");
    reveal_strlit("Marvin Minsky");
    reveal_strlit("A computer is like a violin. You can imagine a novice trying \u{fb01}rst a phonograph and then a violin. The latter, he says, sounds terrible. That is the argument we have heard from our humanists and most of our computer scientists. Computer programs are good, they say, for particular purposes, but they aren\u{2019}t \u{fb02}exible. Neither is a violin, or a typewriter, until you learn how to use it.");
    reveal_strlit("Larry Wall ");
    reveal_strlit("When they first built the University of California at Irvine they just put the buildings in. They did not put any sidewalks, they just planted grass. The next year, they came back and put the sidewalks where the trails were in the grass. Perl is just that kind of language. It is not designed from first principles. Perl is those sidewalks in the grass.");
    reveal_strlit("C.A.R. Hoare");
    reveal_strlit("The most important property of a program is whether it accomplishes the intention of its user.");
}

/// Each record of `part_4` is well written.
proof fn lemma_part_4_well_written()
    ensures
        forall|i: int| 0 <= i < part_4().len() ==> well_written(#[trigger] part_4()[i]),
{
    reveal_strlit("Joseph Weizenbaum");
    reveal_strlit("The computer programmer is a creator of universes for which he alone is the lawgiver. No playwright, no stage director, no emperor, however powerful, has ever exercised such absolute authority to arrange a stage or field of battle and to command such unswervingly dutiful actors or troops.");
    reveal_strlit("Alan Kay");
    reveal_strlit("The most disastrous thing that you can ever learn is your first programming language.");
    reveal_strlit("Alan J. Perlis");
    reveal_strlit("A language that doesn't affect the way you think about programming is not worth knowing.");
    reveal_strlit("Steve Jobs ");
    reveal_strlit("You've baked a really lovely cake, but then you've used dog shit for frosting.");
    reveal_strlit("Robert C. Martin, Clean Code: A Handbook of Agile Software Craftsmanship ");
    reveal_strlit("Truth can only be found in one place: the code.");
    reveal_strlit("Rasheed Ogunlaru");
    reveal_strlit("How you look at it is pretty much how you'll see it");
    reveal_strlit("Martin Fowler ");
    reveal_strlit("Any fool can write code that a computer can understand. Good programmers write code that humans can understand.");
    reveal_strlit("Muhammad Waseem");
    reveal_strlit("Give a man a program, frustrate him for a day.\n Teach a man to program, frustrate him for a lifetime.");
    reveal_strlit("Kent Beck");
    reveal_strlit("I'm not a great programmer; I'm just a good programmer with great habits");
    reveal_strlit("Larry Niven");
    reveal_strlit("That's the thing about people who think they hate computers. What they really hate is lousy programmers.");
    reveal_strlit("Donald E. Knuth, Selected Papers on Computer Science ");
    reveal_strlit("The best programs are written so that computing machines can perform them quickly and so that human beings can understand them clearly. A programmer is ideally an essayist who works with traditional aesthetic and literary forms as well as mathematical concepts, to communicate the way that an algorithm works and to convince a reader that the results will be correct.");
    reveal_strlit("Richard P. Feynman, Surely You're Joking, Mr. Feynman!: Adventures of a Curious Character");
    reveal_strlit("Well, Mr. Frankel, who started this program, began to suffer from the computer disease that anybody who works with computers now knows about. It's a very serious disease and it interferes completely with the work. The trouble with computers is you *play* with them. They are so wonderful. You have these switches - if it's an even number you do this, if it's an odd number you do that - and pretty soon you can do more and more elaborate things if you are clever enough, on one machine. After a while the whole system broke down. Frankel wasn't paying any attention; he wasn't supervising anybody. The system was going very, very slowly - while he was sitting in a room figuring out how to make one tabulator automatically print arc-tangent X, and then it would start and it would print columns and then bitsi, bitsi, bitsi, and calculate the arc-tangent automatically by integrating as it went along and make a whole table in one operation. Absolutely useless. We *had* tables of arc-tangents. But if you've ever worked with computers, you understand the disease - the *delight* in being able to see how much you can do. But he got the disease for the first time, the poor fellow who invented the thing.");
    reveal_strlit("Harold Abelson, Structure and Interpretation of Computer Programs");
    reveal_strlit("Programs must be written for people to read, and only incidentally for machines to execute.");
    reveal_strlit("Why The Lucky Stiff");
    reveal_strlit("When you don't create things, you become defined by your tastes rather than ability. your tastes only narrow & exclude people. so create.");
    reveal_strlit("Linus Torvalds");
    reveal_strlit("Talk is cheap. Show me the code.");
    reveal_strlit("Frederick P. Brooks");
    reveal_strlit("What one programmer can do in one month, two programmers can do in two months.");
    reveal_strlit("Aaron Swartz");
    reveal_strlit("Be curious. Read widely. Try new things. I think a lot of what people call intelligence boils down to curiosity.");
    reveal_strlit("Edward V. Berard");
    reveal_strlit("Walking on water and developing software from a specification are easy if both are frozen.");
    reveal_strlit("Daniel J. Bernstein");
    reveal_strlit("The average user doesn't give a damn what happens, as long as (1) it works and (2) it's fast.");
    reveal_strlit("Patrick McKenzie");
    reveal_strlit("Every great developer you know got there by solving problems they were unqualified to solve until they actually did it.");
    reveal_strlit("Jon Acuff");
    reveal_strlit("Developing tolerance for imperfection is the key factor in turning chronic starters into consistent finishers.");
    reveal_strlit("Stephen Hawking");
    reveal_strlit("To understand recursion, one must first understand recursion.");
    reveal_strlit("Bill Gates, 1981");
    reveal_strlit("640K ought to be enough for anybody.");
    reveal_strlit("Edsger W. Dijkstra");
    reveal_strlit("If debugging is the process of removing bugs, then programming must be the process of putting them in.");
    reveal_strlit("Tom Cargill");
    reveal_strlit("The first 90% of the code accounts for the first 90% of the development time. The remaining 10% of the code accounts for the other 90% of the development time.");
    reveal_strlit("Unknown");
    reveal_strlit("Question: How does a large software project get to be one year late? Answer: One day at a time!");
    reveal_strlit("Paul Graham, Hackers & Painters: Big Ideas from the Computer Age");
    reveal_strlit("The object-oriented model makes it easy to build up programs by accretion. What this often means, in practice, is that it provides a structured way to write spaghetti code.");
    reveal_strlit("Mark Twain");
    reveal_strlit("They did not know it was impossible, so they did it!");
    reveal_strlit("Donald Knuth");
    reveal_strlit("Software is hard.");
    reveal_strlit("Terje Mathisen");
    reveal_strlit("All programming is an exercise in caching.");
    reveal_strlit("Albert Einstein");
    reveal_strlit("If you can't explain something to a six-year-old, you really don't understand it yourself.");
    reveal_strlit("Unknown");
    reveal_strlit("Nothing is more permanent than a temporary solution.");
    reveal_strlit("Larry Wall");
    reveal_strlit("Easy things should be easy and hard things should be possible.");
    reveal_strlit("Alan J. Perlis");
    reveal_strlit("Functions delay binding; data structures induce binding. Moral: Structure data late in the programming process.");
    reveal_strlit("David Wheeler");
    reveal_strlit("All problems in computer science can be solved with another level of indirection.");
    reveal_strlit("Alan J. Perlis");
    reveal_strlit("A LISP programmer knows the value of everything, but the cost of nothing.");
    reveal_strlit("Mosher's Law of Software Engineering");
    reveal_strlit("Don't worry if it doesn't work right. If everything did, you'd be out of a job");
    reveal_strlit("Bill Gates");
    reveal_strlit("Measuring programming progress by lines of code is like measuring aircraft building progress by weight.");
    reveal_strlit("John Johnson");
    reveal_strlit("First, solve the problem. Then, write the code.");
    reveal_strlit("Kent Beck");
    reveal_strlit("Optimism is an occupational hazard of programming; feedback is the treatment.");
}

/// Each record of `part_5` is well written.
proof fn lemma_part_5_well_written()
    ensures
        forall|i: int| 0 <= i < part_5().len() ==> well_written(#[trigger] part_5()[i]),
{
    reveal_strlit("Eric S. Raymond");
    reveal_strlit("Computer science education cannot make anybody an expert programmer any more than studying brushes and pigment can make somebody an expert painter.");
    reveal_strlit("Larry Wall");
    reveal_strlit("Most of you are familiar with the virtues of a programmer. There are three, of course: laziness, impatience, and hubris.");
    reveal_strlit("Edward Tufte");
    reveal_strlit("There are only two industries that refer to their customers as \"users\".");
    reveal_strlit("Grady Booch");
    reveal_strlit("The function of good software is to make the complex appear to be simple.");
    reveal_strlit("Ray Ozzie");
    reveal_strlit("Complexity kills. It sucks the life out of developers, it makes products difficult to plan, build and test, it introduces security challenges, and it causes end-user and administrator frustration.");
    reveal_strlit("Brian Kernighan");
    reveal_strlit("Controlling complexity is the essence of computer programming.");
    reveal_strlit("Linus Torvalds");
    reveal_strlit("The bulk of all patents are crap. Spending time reading them is stupid. It's up to the patent owner to do so, and to enforce them.");
    reveal_strlit("Dennie van Tassel");
    reveal_strlit("I've finally learned what \"upward compatible\" means. It means we get to keep all our old mistakes.");
    reveal_strlit("Alan Kay");
    reveal_strlit("Most software today is very much like an Egyptian pyramid with millions of bricks piled on top of each other, with no structural integrity, but just done by brute force and thousands of slaves.");
    reveal_strlit("C3PO");
    reveal_strlit("The city's central computer told you? R2D2, you know better than to trust a strange computer!");
    reveal_strlit("Marvin Minsky");
    reveal_strlit("It's ridiculous to live 100 years and only be able to remember 30 million bytes. You know, less than a compact disc. The human condition is really becoming more obsolete every minute.");
    reveal_strlit("Edsger W. Dijkstra");
    reveal_strlit("The question of whether computers can think is like the question of whether submarines can swim.");
    reveal_strlit("Pablo Picasso");
    reveal_strlit("Computers are useless. They can only give you answers.");
    reveal_strlit("Peter Deutsch");
    reveal_strlit("To iterate is human, to recurse divine.");
    reveal_strlit("Unknown");
    reveal_strlit("Weeks of programming can save you hours of planning.");
    reveal_strlit("Unknown");
    reveal_strlit("Why do we never have time to do it right, but always have time to do it over?");
    reveal_strlit("Unknown");
    reveal_strlit("No matter how far down the wrong road you have gone, turn back now.");
    reveal_strlit("Unknown");
    reveal_strlit("Think twice, code once.");
    reveal_strlit("Unknown");
    reveal_strlit("Sign your work. Craftsmen of an earlier age were proud to sign their work. You should be, too.");
    reveal_strlit("Unknown");
    reveal_strlit("Find bugs once. Once a human tester finds a bug, it should be the last time a human tester finds that bug. Automatic tests should check for it from then on.");
    reveal_strlit("Unknown");
    reveal_strlit("Use saboteurs to test your testing. Introduce bugs on purpose in a separate copy of the source to verify that testing will catch them.");
    reveal_strlit("Unknown");
    reveal_strlit("Test early. Test often. Test automatically. Tests that run with every build are much more effective than test plans that sit on a shelf.");
    reveal_strlit("Unknown");
    reveal_strlit("Organize teams around functionality. Don't separate designers from coders, testers from data modelers. Build teams the way you build code.");
    reveal_strlit("Unknown");
    reveal_strlit("Don't be a slave to formal methods. Don't blindly adopt any technique without putting it into the context of your development practices and capabilities.");
    reveal_strlit("Unknown");
    reveal_strlit("Start when you're ready. You've been building experience all your life. don't ignore niggling doubts.");
    reveal_strlit("Unknown");
    reveal_strlit("Use a project glossary. Create and maintain a single source of all the specific terms and vocabulary for a project.");
    reveal_strlit("Unknown");
    reveal_strlit("Work with a user to think like a user. It's the best way to gain insight into how the system will really be used.");
    reveal_strlit("Unknown");
    reveal_strlit("Don't use wizard code you don't understand. Wizards can generate reams of code. Make sure you understand all of it before you incorporate it into your project.");
    reveal_strlit("Unknown");
    reveal_strlit("Design to test. Start thinking about testing before you write a line of code.");
    reveal_strlit("Unknown");
    reveal_strlit("Test your estimates. Mathematical analysis of algorithms doesn't tell you everything. Try timing your code in its target environment.");
    reveal_strlit("Unknown");
    reveal_strlit("Don't program by coincidence. Rely only on reliable things. Beware of accidental complexity, and don't confuse a happy coincidence with a purposeful plan.");
    reveal_strlit("Unknown");
    reveal_strlit("Separate views from models. Gain flexibility at low cost by designing your application in terms of models and views.");
    reveal_strlit("Unknown");
    reveal_strlit("Design using services. Design in terms of services-independent, concurrent objects behind well-defined, consistent interfaces.");
    reveal_strlit("Unknown");
    reveal_strlit("Put abstractions in code, details in metadata. Program for the general case, and put the specifics outside the compiled code base.");
    reveal_strlit("Unknown");
    reveal_strlit("Minimize coupling between modules. Avoid coupling by writing \"shy\" code and applying the Law of Demeter.");
    reveal_strlit("Unknown");
    reveal_strlit("Use exceptions for exceptional problems. Exceptions can suffer from all the readability and maintainability problems of classic spaghetti code. Reserve exceptions for exceptional things.");
    reveal_strlit("Unknown");
    reveal_strlit("Crash early. A dead program normally does a lot less damage than a crippled one.");
    reveal_strlit("Unknown");
    reveal_strlit("You can't write perfect software. Software can't be perfect. Protect your code and users from the inevitable errors.");
    reveal_strlit("Unknown");
    reveal_strlit("Learn a text manipulation language. You spend a large part of each day working with text. Why not have the computer do some of it for you?");
    reveal_strlit("Unknown");
    reveal_strlit("\"select\" isn't broken. It is rare to find a bug in the OS or the compiler, or even a third-party product or library. The bug is most likely in the application.");
}

/// Each record of `part_6` is well written.
proof fn lemma_part_6_well_written()
    ensures
        forall|i: int| 0 <= i < part_6().len() ==> well_written(#[trigger] part_6()[i]),
{
    reveal_strlit("Unknown");
    reveal_strlit("Fix the problem, not the blame. It doesn't really matter whether the bug is your fault or someone else's - it is still your problem, and it still needs to be fixed.");
    reveal_strlit("Unknown");
    reveal_strlit("Use a single editor well. The editor should be an extension of your hand; make sure your editor is configurable, extensible, and programmable.");
    reveal_strlit("Unknown");
    reveal_strlit("Keep knowledge in plain text. Plain text won't become obsolete. It helps leverage your work and simplifies debugging and testing.");
    reveal_strlit("Unknown");
    reveal_strlit("Estimate to avoid surprises. Estimate before you start. You'll spot potential problems up front.");
    reveal_strlit("Unknown");
    reveal_strlit("Prototype to learn. Prototyping is a learning experience. Its value lies not in the code you produce, but in the lessons you learn.");
    reveal_strlit("Unknown");
    reveal_strlit("There are no final decisions. No decision is cast in stone. Instead, consider each as being written in the sand at the beach, and plan for change.");
    reveal_strlit("Unknown");
    reveal_strlit("Make it easy to reuse. If it's easy to reuse, people will. Create an environment that supports reuse.");
    reveal_strlit("Unknown");
    reveal_strlit("It's both what you say and the way you say it. There's no point in having great ideas if you don't communicate them effectively.");
    reveal_strlit("Unknown");
    reveal_strlit("Invest regularly in your knowledge portfolio. Make learning a habit.");
    reveal_strlit("Unknown");
    reveal_strlit("Remember the big picture. don't get so engrossed in the details that you forget to check what's happening around you.");
    reveal_strlit("Unknown");
    reveal_strlit("Don't live with broken windows. Fix bad designs, wrong decisions, and poor code when you see them.");
    reveal_strlit("Unknown");
    reveal_strlit("Think about your work. Turn off the autopilot and take control. Constantly critique and appraise your work.");
    reveal_strlit("Unknown");
    reveal_strlit("Gently exceed your users' expectations. Come to understand your users' expectations, then deliver just that little bit more.");
    reveal_strlit("Unknown");
    reveal_strlit("English is just a programming language. Write documents as you would write code: honor the DRY principle, use metadata, MVC, automatic generation, and so on.");
    reveal_strlit("Unknown");
    reveal_strlit("Test state coverage, not code coverage. Identify and test significant program states. Just testing lines of code isn't enough.");
    reveal_strlit("Unknown");
    reveal_strlit("Coding ain't done \"til all the Tests run.\" Nuff said.");
    reveal_strlit("Unknown");
    reveal_strlit("Don't use manual procedures. A shell script or batch file will execute the same instructions, in the same order, time after time.");
    reveal_strlit("Unknown");
    reveal_strlit("Costly tools don't produce better designs. Beware of vendor hype, industry dogma, and the aura of the price tag. Judge tools on their merits.");
    reveal_strlit("Unknown");
    reveal_strlit("Some things are better done than described. Don't fall into the specification spiral - at some point you need to start coding.");
    reveal_strlit("Unknown");
    reveal_strlit("Don't think outside the box - find the box. When faced with an impossible problem, identify the real constraints. Ask yourself: \"Does it have to be done this way? Does it have to be done at all?\"");
    reveal_strlit("Unknown");
    reveal_strlit("Abstractions live longer than details. Invest in the abstraction, not the implementation. Abstractions can survive the barrage of changes from different implementations and new technologies.");
    reveal_strlit("Unknown");
    reveal_strlit("Don't gather requirements - dig for them. Requirements rarely lie on the surface. They're buried deep beneath layers of assumptions, misconceptions, and politics.");
    reveal_strlit("Unknown");
    reveal_strlit("Test your software, or your users will. Test ruthlessly. don't make your users find bugs for you.");
    reveal_strlit("Unknown");
    reveal_strlit("Refactor early, refactor often. Just as you might weed and rearrange a garden, rewrite, rework, and re-architect code when it needs it. Fix the root of the problem.");
    reveal_strlit("Unknown");
    reveal_strlit("Estimate the order of your algorithms. Get a feel for how long things are likely to take before you write code.");
    reveal_strlit("Unknown");
    reveal_strlit("Use blackboards to coordinate workflow. Use blackboards to coordinate disparate facts and agents, while maintaining independence and isolation among participants.");
    reveal_strlit("Unknown");
    reveal_strlit("Always design for concurrency. Allow for concurrency, and you'll design cleaner interfaces with fewer assumptions.");
    reveal_strlit("Unknown");
    reveal_strlit("Analyze workflow to improve concurrency. Exploit concurrency in your user's workflow.");
    reveal_strlit("Unknown");
    reveal_strlit("Configure, don't integrate. Implement technology choices for an application as configuration options, not through integration or engineering.");
    reveal_strlit("Unknown");
    reveal_strlit("Finish what you start. Where possible, the routine or object that allocates a resource should be responsible for deallocating it.");
    reveal_strlit("Unknown");
    reveal_strlit("Use assertions to prevent the impossible. Assertions validate your assumptions. Use them to protect your code from an uncertain world.");
    reveal_strlit("Unknown");
    reveal_strlit("Design With contracts. Use contracts to document and verify that code does no more and no less than it claims to do.");
    reveal_strlit("Unknown");
    reveal_strlit("Write code that writes code. Code generators increase your productivity and help avoid duplication.");
    reveal_strlit("Unknown");
    reveal_strlit("Don't assume it - prove it. Prove your assumptions in the actual environment - with real data and boundary conditions.");
    reveal_strlit("Unknown");
    reveal_strlit("Don't panic when debugging Take a deep breath and THINK! about what could be causing the bug.");
    reveal_strlit("Unknown");
    reveal_strlit("Always use source code control. Source code control is a time machine for your work - you can go back.");
    reveal_strlit("Unknown");
    reveal_strlit("Use the power of command shells. Use the shell when graphical user interfaces don't cut it.");
    reveal_strlit("Unknown");
    reveal_strlit("Iterate the schedule with the code. Use experience you gain as you implement to refine the project time scales.");
    reveal_strlit("Unknown");
    reveal_strlit("Program close to the problem domain. Design and code in your user's language.");
    reveal_strlit("Unknown");
    reveal_strlit("Use tracer bullets to find the target. Tracer bullets let you hone in on your target by trying things and seeing how close they land.");
}

/// Each record of `part_7` is well written.
proof fn lemma_part_7_well_written()
    ensures
        forall|i: int| 0 <= i < part_7().len() ==> well_written(#[trigger] part_7()[i]),
{
    reveal_strlit("Unknown");
    reveal_strlit("Eliminate effects between unrelated things. Design components that are self-contained, independent, and have a single, well-defined purpose.");
    reveal_strlit("Unknown");
    reveal_strlit("DRY - don't Repeat Yourself. Every piece of knowledge must have a single, unambiguous, authoritative representation within a system.");
    reveal_strlit("Unknown");
    reveal_strlit("Critically analyze what you read and hear. don't be swayed by vendors, media hype, or dogma. Analyze information in terms of you and your project.");
    reveal_strlit("Unknown");
    reveal_strlit("Make quality a requirements issue. Involve your users in determining the project's real quality requirements.");
    reveal_strlit("Unknown");
    reveal_strlit("Be a catalyst for change. You can't force change on people. Instead, show them how the future might be and help them participate in creating it.");
    reveal_strlit("Unknown");
    reveal_strlit("Provide options, don't make lame excuses. Instead of excuses, provide options. don't say it can't be done; explain what can be done.");
    reveal_strlit("Unknown");
    reveal_strlit("Care about your craft. Why spend your life developing software unless you care about doing it well?");
    reveal_strlit("Andrew Gerrand");
    reveal_strlit("Methods are just functions with a special first argument.");
    reveal_strlit("Rob Pike");
    reveal_strlit("Fancy algorithms are slow when n is small, and n is usually small.");
    reveal_strlit("Larry Wall");
    reveal_strlit("Almost every programming language is overrated by its practitioners.");
    reveal_strlit("Unknown");
    reveal_strlit("Computers are harder to maintain at high altitude. Thinner air means less cushion between disk heads and platters. Also more radiation.");
    reveal_strlit("Bartosz Milewski");
    reveal_strlit("If programmers were electricians, parallel programmers would be bomb disposal experts. Both cut wires.");
    reveal_strlit("Alan Cooper");
    reveal_strlit("All idioms must be learned. Good idioms only need to be learned once.");
    reveal_strlit("Richard Feynman");
    reveal_strlit("For a successful technology, reality must take precedence over public relations, for Nature cannot be fooled.");
    reveal_strlit("Unknown");
    reveal_strlit("All loops are infinite ones for faulty RAM modules.");
    reveal_strlit("Rob Pike");
    reveal_strlit("\"dd\" is horrible on purpose. It's a joke about OS/360 JCL. But today it's an internationally standardized joke. I guess that says it all.");
    reveal_strlit("Edsger W. Dijkstra");
    reveal_strlit("Abstraction is not about vagueness, it is about being precise at a new semantic level.");
    reveal_strlit("Rob Pike");
    reveal_strlit("Caches are bugs waiting to happen.");
    reveal_strlit("Leslie Lamport");
    reveal_strlit("If you don't start with a spec, every piece of code you write is a patch.");
    reveal_strlit("Frank Wilczek");
    reveal_strlit("If you don't make mistakes, you're not working on hard enough problems.");
    reveal_strlit("Unknown");
    reveal_strlit("Perfection is achieved, not when there is nothing more to add, but when there is nothing left to take away.");
    reveal_strlit("Unknown");
    reveal_strlit("Contrary to popular belief, Unix is user friendly. It just happens to be very selective about who it decides to make friends with.");
    reveal_strlit("Unknown");
    reveal_strlit("Unix was not designed to stop its users from doing stupid things, as that would also stop them from doing clever things.");
    reveal_strlit("John Woods");
    reveal_strlit("Always code as if the person who ends up maintaining your code is a violent psychopath who knows where you live.");
    reveal_strlit("Rich Hickey");
    reveal_strlit("Patterns mean \"I have run out of language.\"");
    reveal_strlit("Doug Linder");
    reveal_strlit("A good programmer is someone who always looks both ways before crossing a one-way street.");
    reveal_strlit("Phil Wadler");
    reveal_strlit("The essence of XML is this: the problem it solves is not hard, and it does not solve the problem well.");
    reveal_strlit("Alan Kay");
    reveal_strlit("Progress in a fixed context is almost always a form of optimization. Creative acts generally don't stay in the context that they are in.");
    reveal_strlit("Edsger W. Dijkstra");
    reveal_strlit("The computing scientist's main challenge is not to get confused by the complexities of his own making.");
    reveal_strlit("Unknown");
    reveal_strlit("If a system is to serve the creative spirit, it must be entirely comprehensible to a single individual.");
    reveal_strlit("Vincent Van Gogh");
    reveal_strlit("I would rather die of passion than of boredom.");
    reveal_strlit("Glyn Williams");
    reveal_strlit("I think a lot of new programmers like to use advanced data structures and advanced language features as a way of demonstrating their ability. I call it the lion-tamer syndrome. Such demonstrations are impressive, but unless they actually translate into real wins for the project, avoid them.");
    reveal_strlit("Alan Kay");
    reveal_strlit("If you don't fail at least 90% of the time, you're not aiming high enough.");
    reveal_strlit("Peter Drucker");
    reveal_strlit("There is nothing quite so useless as doing with great efficiency something that should not be done at all.");
    reveal_strlit("Alan Perlis");
    reveal_strlit("It is better to have 100 functions operate on one data structure than 10 functions on 10 data structures.");
    reveal_strlit("Alan Perlis");
    reveal_strlit("Recursion is the root of computation since it trades description for time.");
    reveal_strlit("Alan Perlis");
    reveal_strlit("Optimization hinders evolution.");
    reveal_strlit("Alan Perlis");
    reveal_strlit("Simplicity does not precede complexity, but follows it");
    reveal_strlit("Alan Perlis");
    reveal_strlit("It is easier to change the specification to fit the program than vice versa.");
    reveal_strlit("Alan Perlis");
    reveal_strlit("Fools ignore complexity. Pragmatists suffer it. Some can avoid it. Geniuses remove it.");
}

/// Each record of `part_8` is well written.
proof fn lemma_part_8_well_written()
    ensures
        forall|i: int| 0 <= i < part_8().len() ==> well_written(#[trigger] part_8()[i]),
{
    reveal_strlit("Alan Perlis");
    reveal_strlit("Adapting old programs to fit new machines usually means adapting new machines to behave like old ones.");
    reveal_strlit("Unknown");
    reveal_strlit("If you don't finish then you're just busy, not productive.");
    reveal_strlit("Bill Sempf");
    reveal_strlit("QA Engineer walks into a bar. Orders a beer. Orders 0 beers. Orders 999999999 beers. Orders a lizard. Orders -1 beers. Orders a sfdeljknesv.");
    reveal_strlit("Phil Karlton");
    reveal_strlit("There are only two hard things in Computer Science: cache invalidation, naming things and off-by-one errors.");
    reveal_strlit("Jeff Atwood");
    reveal_strlit("In software, we rarely have meaningful requirements. Even if we do, the only measure of success that matters is whether our solution solves the customer's shifting idea of what their problem is.");
    reveal_strlit("Robert Sewell");
    reveal_strlit("If Java had true garbage collection, most programs would delete themselves upon execution.");
    reveal_strlit("Gavin Russell Baker");
    reveal_strlit("C++ : Where friends have access to your private members.");
    reveal_strlit("Bjarne Stroustrup");
    reveal_strlit("In C++ it's harder to shoot yourself in the foot, but when you do, you blow off your whole leg.");
    reveal_strlit("Larry DeLuca");
    reveal_strlit("I've noticed lately that the paranoid fear of computers becoming intelligent and taking over the world has almost entirely disappeared from the common culture.  Near as I can tell, this coincides with the release of MS-DOS.");
    reveal_strlit("Mark Gibbs");
    reveal_strlit("No matter how slick the demo is in rehearsal, when you do it in front of a live audience, the probability of a flawless presentation is inversely proportional to the number of people watching, raised to the power of the amount of money involved.");
    reveal_strlit("Henry Petroski");
    reveal_strlit("The most amazing achievement of the computer software industry is its continuing cancellation of the steady and staggering gains made by the computer hardware industry.");
    reveal_strlit("Jeremy S. Anderson");
    reveal_strlit("There are two major products that come out of Berkeley: LSD and UNIX.  We don't believe this to be a coincidence.");
    reveal_strlit("Sam Ewing");
    reveal_strlit("Computers are like bikinis. They save people a lot of guesswork.");
    reveal_strlit("Jamie Zawinski");
    reveal_strlit("Linux is only free if your time has no value.");
    reveal_strlit("Dick Brandon");
    reveal_strlit("Documentation is like sex; when it's good, it's very, very good, and when it's bad, it's better than nothing.");
    reveal_strlit("Richard Moore");
    reveal_strlit("The difference between theory and practice is that in theory, there is no difference between theory and practice.");
    reveal_strlit("Michael Sinz");
    reveal_strlit("Programming is like sex: one mistake and you're providing support for a lifetime.");
    reveal_strlit("Bjarne Stroustrup");
    reveal_strlit("There are only two kinds of programming languages: those people always bitch about and those nobody uses.");
    reveal_strlit("Donald Knuth");
    reveal_strlit("Beware of bugs in the above code; I have only proved it correct, not tried it.");
    reveal_strlit("Tom Van Vleck");
    reveal_strlit("We know about as much about software quality problems as they knew about the Black Plague in the 1600s. We've seen the victims' agonies and helped burn the corpses. We don't know what causes it; we don't really know if there is only one disease. We just suffer \u{2014} and keep pouring our sewage into our water supply.");
    reveal_strlit("N.J. Rubenking");
    reveal_strlit("Writing the first 90 percent of a computer program takes 90 percent of the time. The remaining ten percent also takes 90 percent of the time and the final touches also take 90 percent of the time.");
    reveal_strlit("C.A.R. Hoare");
    reveal_strlit("There are two ways of constructing a software design; one way is to make it so simple that there are obviously no deficiencies, and the other way is to make it so complicated that there are no obvious deficiencies. The first method is far more difficult.");
    reveal_strlit("James O. Coplien");
    reveal_strlit("You should name a variable using the same care with which you name a first-born child.");
    reveal_strlit("Fred Brooks");
    reveal_strlit("Einstein argued that there must be simplified explanations of nature, because God is not capricious or arbitrary. No such faith comforts the software engineer.");
    reveal_strlit("Unknown");
    reveal_strlit("XML is like violence - if it doesn't solve your problems, you are not using enough of it.");
    reveal_strlit("Unknown");
    reveal_strlit("Saying that Java is good because it works on all platforms is like saying anal sex is good because it works on all genders.");
    reveal_strlit("Douglas Adams");
    reveal_strlit("I love deadlines. I like the whooshing sound they make as they fly by.");
    reveal_strlit("Keith Bostic");
    reveal_strlit("Perl - The only language that looks the same before and after RSA encryption.");
    reveal_strlit("Albert Einstein");
    reveal_strlit("Two things are infinite: the universe and human stupidity; and I'm not sure about the universe.");
    reveal_strlit("Yogi Berra");
    reveal_strlit("In theory, theory and practice are the same. In practice, they're not.");
    reveal_strlit("E. W. Dijkstra");
    reveal_strlit("It is practically impossible to teach good programming style to students that have had prior exposure to BASIC. As potential programmers, they are mentally mutilated beyond hope of regeneration.");
    reveal_strlit("E. W. Dijkstra");
    reveal_strlit("If debugging is the process of removing software bugs, then programming must be the process of putting them in.");
    reveal_strlit("Mitch Ratcliffe");
    reveal_strlit("A computer lets you make more mistakes faster than any other invention in human history, with the possible exceptions of handguns and tequila.");
    reveal_strlit("Bjarne Stroustrup");
    reveal_strlit("I have always wished for my computer to be as easy to use as my telephone; my wish has come true because I can no longer figure out how to use my telephone.");
    reveal_strlit("Ovidiu Platon");
    reveal_strlit("I don't care if it works on your machine! We are not shipping your machine!");
    reveal_strlit("Rich Cook, The Wizardry Compiled");
    reveal_strlit("Programming today is a race between software engineers striving to build bigger and better idiot-proof programs, and the Universe trying to produce bigger and better idiots. So far, the Universe is winning.");
    reveal_strlit("Rick Osborne");
    reveal_strlit("Always code as if the guy who ends up maintaining your code will be a violent psychopath who knows where you live.");
    reveal_strlit("Charles Babbage");
    reveal_strlit("On two occasions I have been asked, \"Pray, Mr. Babbage, if you put into the machine wrong figures, will the right answers come out?' I am not able rightly to apprehend the kind of confusion of ideas that could provoke such a question.\"");
    reveal_strlit("Jon Ribbens");
    reveal_strlit("PHP is a minor evil perpetrated and created by incompetent amateurs, whereas Perl is a great and insidious evil, perpetrated by skilled but perverted professionals.");
    reveal_strlit("Brian Kernighan");
    reveal_strlit("Debugging is twice as hard as writing the code in the first place. Therefore, if you write the code as cleverly as possible, you are, by definition, not smart enough to debug it.");
}

/// Each record of `part_9` is well written.
proof fn lemma_part_9_well_written()
    ensures
        forall|i: int| 0 <= i < part_9().len() ==> well_written(#[trigger] part_9()[i]),
{
    reveal_strlit("Jamie Zawinski");
    reveal_strlit("Some people, when confronted with a problem, think \"I know, I'll use regular expressions.\" Now they have two problems.");
    reveal_strlit("Hofstadter's Law");
    reveal_strlit("It always takes longer than you expect, even when you take into account Hofstadter's Law.");
    reveal_strlit("C.A.R. Hoare");
    reveal_strlit("We should forget about small efficiencies, say about 97% of the time: premature optimization is the root of all evil.");
}

/// Every built-in record has a non-empty author and text, and neither
/// begins with a lowercase ASCII letter.
pub proof fn law_builtin_well_written(i: int)
    requires
        0 <= i < builtin_records().len(),
    ensures
        well_written(builtin_records()[i]),
{
    lemma_part_1_well_written();
    lemma_part_2_well_written();
    lemma_part_3_well_written();
    lemma_part_4_well_written();
    lemma_part_5_well_written();
    lemma_part_6_well_written();
    lemma_part_7_well_written();
    lemma_part_8_well_written();
    lemma_part_9_well_written();
    let s1 = part_1();
    let s2 = s1 + part_2();
    let s3 = s2 + part_3();
    let s4 = s3 + part_4();
    let s5 = s4 + part_5();
    let s6 = s5 + part_6();
    let s7 = s6 + part_7();
    let s8 = s7 + part_8();
    let s9 = s8 + part_9();
    assert(builtin_records() == s9);
    assert forall|j: int| 0 <= j < s2.len() implies well_written(#[trigger] s2[j]) by {
        if j >= s1.len() {
            assert(s2[j] == part_2()[j - s1.len()]);
        } else {
            assert(s2[j] == s1[j]);
        }
    }
    assert forall|j: int| 0 <= j < s3.len() implies well_written(#[trigger] s3[j]) by {
        if j >= s2.len() {
            assert(s3[j] == part_3()[j - s2.len()]);
        } else {
            assert(s3[j] == s2[j]);
        }
    }
    assert forall|j: int| 0 <= j < s4.len() implies well_written(#[trigger] s4[j]) by {
        if j >= s3.len() {
            assert(s4[j] == part_4()[j - s3.len()]);
        } else {
            assert(s4[j] == s3[j]);
        }
    }
    assert forall|j: int| 0 <= j < s5.len() implies well_written(#[trigger] s5[j]) by {
        if j >= s4.len() {
            assert(s5[j] == part_5()[j - s4.len()]);
        } else {
            assert(s5[j] == s4[j]);
        }
    }
    assert forall|j: int| 0 <= j < s6.len() implies well_written(#[trigger] s6[j]) by {
        if j >= s5.len() {
            assert(s6[j] == part_6()[j - s5.len()]);
        } else {
            assert(s6[j] == s5[j]);
        }
    }
    assert forall|j: int| 0 <= j < s7.len() implies well_written(#[trigger] s7[j]) by {
        if j >= s6.len() {
            assert(s7[j] == part_7()[j - s6.len()]);
        } else {
            assert(s7[j] == s6[j]);
        }
    }
    assert forall|j: int| 0 <= j < s8.len() implies well_written(#[trigger] s8[j]) by {
        if j >= s7.len() {
            assert(s8[j] == part_8()[j - s7.len()]);
        } else {
            assert(s8[j] == s7[j]);
        }
    }
    assert forall|j: int| 0 <= j < s9.len() implies well_written(#[trigger] s9[j]) by {
        if j >= s8.len() {
            assert(s9[j] == part_9()[j - s8.len()]);
        } else {
            assert(s9[j] == s8[j]);
        }
    }
    assert(well_written(s9[i]));
}

/// Tells the built-in texts apart: the position of the built-in record
/// whose text is `s`, decided by the length of `s` and a few of its
/// characters.
pub open spec fn text_position(s: Seq<char>) -> int {
    if s.len() == 17 {
        148
    } else if s.len() == 23 {
        177
    } else if s.len() == 30 {
        58
    } else if s.len() == 31 {
        276
    } else if s.len() == 32 {
        134
    } else if s.len() == 34 {
        257
    } else if s.len() == 36 {
        142
    } else if s.len() == 37 {
        44
    } else if s.len() == 38 {
        89
    } else if s.len() == 39 {
        if s[1] == 'h' {
            96
        } else {
            173
        }
    } else if s.len() == 42 {
        149
    } else if s.len() == 43 {
        264
    } else if s.len() == 45 {
        293
    } else if s.len() == 46 {
        if s[1] == '\u{20}' {
            if s[2] == 'a' {
                49
            } else {
                270
            }
        } else {
            60
        }
    } else if s.len() == 47 {
        if s[0] == 'T' {
            if s[1] == 'h' {
                22
            } else {
                124
            }
        } else {
            158
        }
    } else if s.len() == 49 {
        if s[0] == 'O' {
            2
        } else if s[0] == 'S' {
            13
        } else if s[0] == 'J' {
            86
        } else {
            88
        }
    } else if s.len() == 51 {
        if s[0] == 'H' {
            125
        } else {
            254
        }
    } else if s.len() == 52 {
        if s[0] == 'T' {
            147
        } else if s[0] == 'N' {
            151
        } else {
            174
        }
    } else if s.len() == 53 {
        if s[0] == 'P' {
            32
        } else {
            215
        }
    } else if s.len() == 54 {
        if s[0] == 'C' {
            172
        } else {
            277
        }
    } else if s.len() == 56 {
        286
    } else if s.len() == 57 {
        if s[0] == 'O' {
            59
        } else if s[0] == 'B' {
            66
        } else {
            247
        }
    } else if s.len() == 58 {
        281
    } else if s.len() == 61 {
        141
    } else if s.len() == 62 {
        if s[0] == 'E' {
            152
        } else {
            165
        }
    } else if s.len() == 63 {
        24
    } else if s.len() == 64 {
        292
    } else if s.len() == 66 {
        if s[0] == 'I' {
            80
        } else {
            248
        }
    } else if s.len() == 67 {
        176
    } else if s.len() == 68 {
        if s[0] == 'I' {
            208
        } else {
            249
        }
    } else if s.len() == 69 {
        if s[0] == 'M' {
            26
        } else {
            if s[1] == '\u{20}' {
                114
            } else {
                252
            }
        }
    } else if s.len() == 70 {
        if s[1] == '\u{20}' {
            306
        } else {
            309
        }
    } else if s.len() == 71 {
        if s[0] == 'T' {
            162
        } else {
            259
        }
    } else if s.len() == 72 {
        128
    } else if s.len() == 73 {
        if s[0] == 'D' {
            72
        } else if s[0] == 'A' {
            155
        } else if s[0] == 'T' {
            163
        } else {
            258
        }
    } else if s.len() == 74 {
        if s[0] == 'P' {
            40
        } else if s[0] == 'T' {
            62
        } else if s[0] == 'I' {
            272
        } else {
            275
        }
    } else if s.len() == 75 {
        if s[1] == 'n' {
            11
        } else {
            314
        }
    } else if s.len() == 76 {
        if s[0] == 'R' {
            43
        } else {
            278
        }
    } else if s.len() == 77 {
        if s[0] == 'O' {
            159
        } else if s[0] == 'W' {
            175
        } else if s[0] == 'D' {
            188
        } else {
            if s[1] == 'r' {
                238
            } else {
                307
            }
        }
    } else if s.len() == 78 {
        if s[0] == 'O' {
            3
        } else if s[0] == 'A' {
            29
        } else if s[0] == 'Y' {
            123
        } else if s[0] == 'W' {
            135
        } else if s[0] == 'D' {
            156
        } else {
            298
        }
    } else if s.len() == 80 {
        if s[0] == 'I' {
            if s[1] == 'n' {
                14
            } else {
                64
            }
        } else if s[0] == 'T' {
            if s[4] == 'h' {
                39
            } else {
                55
            }
        } else {
            196
        }
    } else if s.len() == 81 {
        if s[0] == 'A' {
            154
        } else {
            296
        }
    } else if s.len() == 82 {
        65
    } else if s.len() == 83 {
        68
    } else if s.len() == 84 {
        85
    } else if s.len() == 85 {
        if s[0] == 'T' {
            if s[1] == 'a' {
                113
            } else {
                121
            }
        } else {
            227
        }
    } else if s.len() == 86 {
        if s[0] == 'T' {
            83
        } else if s[0] == 'A' {
            256
        } else if s[0] == 'F' {
            279
        } else {
            302
        }
    } else if s.len() == 88 {
        if s[0] == 'A' {
            if s[1] == 'b' {
                48
            } else {
                122
            }
        } else {
            97
        }
    } else if s.len() == 89 {
        if s[0] == 'A' {
            265
        } else if s[0] == 'X' {
            304
        } else {
            321
        }
    } else if s.len() == 90 {
        if s[0] == 'A' {
            81
        } else if s[0] == 'W' {
            137
        } else {
            if s[3] == 'y' {
                150
            } else {
                285
            }
        }
    } else if s.len() == 91 {
        if s[0] == 'P' {
            132
        } else {
            236
        }
    } else if s.len() == 92 {
        if s[0] == 'T' {
            if s[3] == 'o' {
                28
            } else {
                51
            }
        } else {
            67
        }
    } else if s.len() == 93 {
        if s[0] == 'I' {
            84
        } else if s[0] == 'E' {
            95
        } else if s[0] == 'T' {
            if s[4] == 'a' {
                138
            } else {
                169
            }
        } else {
            234
        }
    } else if s.len() == 94 {
        if s[0] == 'D' {
            20
        } else if s[0] == 'T' {
            119
        } else {
            178
        }
    } else if s.len() == 95 {
        if s[0] == 'Q' {
            145
        } else if s[0] == 'I' {
            287
        } else {
            308
        }
    } else if s.len() == 96 {
        if s[0] == 'T' {
            171
        } else {
            203
        }
    } else if s.len() == 97 {
        222
    } else if s.len() == 98 {
        if s[0] == 'B' {
            23
        } else if s[0] == 'T' {
            54
        } else if s[0] == 'I' {
            167
        } else {
            210
        }
    } else if s.len() == 99 {
        if s[0] == 'C' {
            if s[1] == 'e' {
                71
            } else {
                246
            }
        } else {
            232
        }
    } else if s.len() == 100 {
        57
    } else if s.len() == 101 {
        if s[0] == 'A' {
            116
        } else if s[0] == 'G' {
            127
        } else if s[0] == 'S' {
            184
        } else {
            206
        }
    } else if s.len() == 102 {
        if s[0] == 'S' {
            45
        } else if s[0] == 'I' {
            if s[3] == 'd' {
                143
            } else {
                251
            }
        } else if s[0] == 'A' {
            if s[1] == 'l' {
                235
            } else {
                280
            }
        } else {
            if s[4] == 'e' {
                266
            } else {
                268
            }
        }
    } else if s.len() == 103 {
        if s[0] == 'A' {
            36
        } else if s[0] == 'T' {
            53
        } else if s[0] == 'M' {
            157
        } else {
            269
        }
    } else if s.len() == 104 {
        if s[0] == 'T' {
            129
        } else {
            194
        }
    } else if s.len() == 105 {
        if s[0] == 'I' {
            274
        } else {
            297
        }
    } else if s.len() == 106 {
        273
    } else if s.len() == 107 {
        if s[0] == 'B' {
            27
        } else if s[0] == 'T' {
            if s[2] == 'e' {
                87
            } else {
                211
            }
        } else if s[0] == 'S' {
            111
        } else {
            260
        }
    } else if s.len() == 108 {
        283
    } else if s.len() == 109 {
        if s[0] == 'M' {
            243
        } else if s[0] == 'F' {
            253
        } else {
            294
        }
    } else if s.len() == 110 {
        140
    } else if s.len() == 111 {
        if s[0] == 'A' {
            126
        } else if s[0] == 'F' {
            153
        } else if s[0] == 'E' {
            224
        } else {
            if s[1] == 't' {
                237
            } else {
                311
            }
        }
    } else if s.len() == 112 {
        if s[0] == 'P' {
            101
        } else if s[0] == 'B' {
            136
        } else {
            263
        }
    } else if s.len() == 113 {
        if s[0] == 'W' {
            186
        } else {
            if s[3] == 'r' {
                291
            } else {
                295
            }
        }
    } else if s.len() == 114 {
        if s[0] == 'I' {
            100
        } else {
            if s[7] == 'd' {
                226
            } else {
                316
            }
        }
    } else if s.len() == 115 {
        185
    } else if s.len() == 116 {
        if s[0] == 'S' {
            191
        } else if s[0] == 'Y' {
            197
        } else {
            231
        }
    } else if s.len() == 117 {
        if s[0] == 'W' {
            if s[1] == 'h' {
                102
            } else {
                322
            }
        } else if s[0] == 'P' {
            110
        } else {
            209
        }
    } else if s.len() == 118 {
        if s[0] == 'D' {
            233
        } else {
            320
        }
    } else if s.len() == 119 {
        139
    } else if s.len() == 120 {
        if s[0] == 'M' {
            161
        } else {
            262
        }
    } else if s.len() == 123 {
        305
    } else if s.len() == 124 {
        if s[0] == 'T' {
            77
        } else {
            212
        }
    } else if s.len() == 125 {
        if s[1] == 't' {
            9
        } else {
            12
        }
    } else if s.len() == 126 {
        if s[0] == 'G' {
            33
        } else if s[0] == 'P' {
            109
        } else if s[0] == 'D' {
            192
        } else if s[0] == 'T' {
            214
        } else {
            218
        }
    } else if s.len() == 127 {
        if s[0] == 'I' {
            56
        } else {
            76
        }
    } else if s.len() == 128 {
        207
    } else if s.len() == 129 {
        if s[0] == 'R' {
            61
        } else if s[0] == 'K' {
            202
        } else if s[0] == 'D' {
            216
        } else {
            229
        }
    } else if s.len() == 130 {
        if s[0] == 'S' {
            34
        } else if s[0] == 'W' {
            112
        } else if s[0] == 'T' {
            166
        } else if s[0] == 'P' {
            193
        } else {
            261
        }
    } else if s.len() == 131 {
        if s[0] == 'A' {
            78
        } else {
            204
        }
    } else if s.len() == 132 {
        if s[0] == 'A' {
            93
        } else if s[0] == 'D' {
            241
        } else {
            245
        }
    } else if s.len() == 133 {
        if s[0] == 'I' {
            63
        } else if s[0] == 'T' {
            189
        } else {
            239
        }
    } else if s.len() == 134 {
        if s[4] == 's' {
            180
        } else {
            230
        }
    } else if s.len() == 135 {
        250
    } else if s.len() == 136 {
        if s[0] == 'T' {
            181
        } else {
            267
        }
    } else if s.len() == 137 {
        if s[0] == 'W' {
            133
        } else {
            255
        }
    } else if s.len() == 138 {
        if s[0] == 'O' {
            182
        } else {
            198
        }
    } else if s.len() == 140 {
        if s[0] == 'W' {
            18
        } else if s[0] == 'E' {
            240
        } else {
            282
        }
    } else if s.len() == 141 {
        if s[2] == 's' {
            217
        } else {
            228
        }
    } else if s.len() == 142 {
        if s[0] == 'T' {
            91
        } else if s[0] == 'U' {
            201
        } else {
            312
        }
    } else if s.len() == 144 {
        244
    } else if s.len() == 145 {
        10
    } else if s.len() == 146 {
        if s[0] == 'T' {
            205
        } else {
            242
        }
    } else if s.len() == 147 {
        if s[0] == 'A' {
            52
        } else if s[0] == 'I' {
            103
        } else {
            160
        }
    } else if s.len() == 148 {
        19
    } else if s.len() == 152 {
        75
    } else if s.len() == 153 {
        if s[0] == 'C' {
            92
        } else {
            183
        }
    } else if s.len() == 154 {
        if s[0] == 'T' {
            104
        } else {
            190
        }
    } else if s.len() == 156 {
        if s[0] == 'F' {
            179
        } else {
            313
        }
    } else if s.len() == 157 {
        if s[0] == 'W' {
            99
        } else {
            213
        }
    } else if s.len() == 159 {
        if s[0] == 'T' {
            144
        } else if s[0] == 'D' {
            187
        } else if s[0] == '\u{22}' {
            199
        } else {
            303
        }
    } else if s.len() == 162 {
        if s[0] == 'D' {
            221
        } else {
            225
        }
    } else if s.len() == 163 {
        1
    } else if s.len() == 164 {
        if s[0] == 'F' {
            200
        } else if s[0] == 'R' {
            223
        } else {
            318
        }
    } else if s.len() == 165 {
        8
    } else if s.len() == 168 {
        290
    } else if s.len() == 170 {
        35
    } else if s.len() == 172 {
        146
    } else if s.len() == 173 {
        7
    } else if s.len() == 174 {
        16
    } else if s.len() == 176 {
        if s[0] == 'C' {
            37
        } else if s[0] == 'T' {
            74
        } else {
            105
        }
    } else if s.len() == 178 {
        if s[2] == 's' {
            82
        } else {
            319
        }
    } else if s.len() == 183 {
        170
    } else if s.len() == 184 {
        73
    } else if s.len() == 186 {
        195
    } else if s.len() == 190 {
        220
    } else if s.len() == 192 {
        21
    } else if s.len() == 193 {
        if s[0] == 'I' {
            0
        } else {
            168
        }
    } else if s.len() == 194 {
        if s[1] == 'n' {
            284
        } else {
            310
        }
    } else if s.len() == 195 {
        219
    } else if s.len() == 196 {
        if s[0] == 'C' {
            164
        } else {
            300
        }
    } else if s.len() == 201 {
        31
    } else if s.len() == 206 {
        315
    } else if s.len() == 208 {
        if s[2] == 'e' {
            6
        } else {
            98
        }
    } else if s.len() == 210 {
        15
    } else if s.len() == 223 {
        288
    } else if s.len() == 225 {
        30
    } else if s.len() == 228 {
        25
    } else if s.len() == 235 {
        317
    } else if s.len() == 237 {
        5
    } else if s.len() == 245 {
        289
    } else if s.len() == 250 {
        42
    } else if s.len() == 253 {
        38
    } else if s.len() == 254 {
        301
    } else if s.len() == 267 {
        90
    } else if s.len() == 277 {
        70
    } else if s.len() == 285 {
        4
    } else if s.len() == 289 {
        120
    } else if s.len() == 291 {
        271
    } else if s.len() == 313 {
        299
    } else if s.len() == 324 {
        106
    } else if s.len() == 327 {
        41
    } else if s.len() == 340 {
        108
    } else if s.len() == 353 {
        118
    } else if s.len() == 367 {
        130
    } else if s.len() == 374 {
        46
    } else if s.len() == 383 {
        117
    } else if s.len() == 393 {
        47
    } else if s.len() == 395 {
        107
    } else if s.len() == 397 {
        94
    } else if s.len() == 415 {
        79
    } else if s.len() == 512 {
        69
    } else if s.len() == 525 {
        17
    } else if s.len() == 579 {
        50
    } else if s.len() == 991 {
        115
    } else if s.len() == 1204 {
        131
    } else {
        -1
    }
}

/// `text_position` finds each text of `part_1` at its record's position.
proof fn lemma_part_1_texts_placed()
    ensures
        forall|i: int| 0 <= i < part_1().len() ==> text_position(#[trigger] part_1()[i].quote@) == 0 + i,
{
    reveal_strlit("I think Leopard is a much better system [[than Windows Vista]] but OS X in some ways is actually worse than Windows to program for. Their file system is complete and utter crap, which is scary.");
    reveal_strlit("Hmmm, completely a-religious - atheist. I find that people seem to think religion brings morals and appreciation of nature. I actually think it detracts from both.");
    reveal_strlit("On the internet nobody can hear you being subtle.");
    reveal_strlit("Only religious fanatics and totalitarian states equate morality with legality.");
    reveal_strlit("Security people are often the black-and-white kind of people that I can't stand. I think the OpenBSD crowd is a bunch of masturbating monkeys, in that they make such a big deal about concentrating on security to the point where they pretty much admit that nothing else matters to them.");
    reveal_strlit("The complaints I've had is that GitHub as a development platform - making commits, pull requests, keeping track of issues etc - doesn't work very well at all. It's not even close, not for something like the kernel. It's much too limited.");
    reveal_strlit("There are lots of Linux users who don't care how the kernel works but only want to use it is not only a tribute to how good Linux is, but it also brings up issues that I would never have thought of otherwise.");
    reveal_strlit("I get the biggest enjoyment from the random and unexpected places. Linux on cellphones or refrigerators, just because it's so not what I envisioned it. Or on supercomputers.");
    reveal_strlit("In many cases the user interface to a program is the most important part for a commercial company: whether the programs works correctly or not seems to be secondary.");
    reveal_strlit("It's what I call \"mental masturbation\", when you engage is some pointless intellectual exercise that has no possible meaning.");
    reveal_strlit("Most of the good programmers do programming not because they expect to get paid or get adulation by the public, but because it is fun to program.");
    reveal_strlit("Intelligence is the ability to avoid doing work, yet getting the work done.");
    reveal_strlit("If you think penguins are fat and waddle, you have never been attacked by one running at you in excess of 100 miles per hour.");
    reveal_strlit("Software is like sex: It's better when it's free.");
    reveal_strlit("In short: just say NO TO DRUGS, and maybe you won't end up like the Hurd people.");
    reveal_strlit("Programmers are in the enviable position of not only getting to do what they want to, but because the end result is so important they get paid to do it. There are other professions like that, but not that many.");
    reveal_strlit("To be a nemesis, you have to actively try to destroy something, don't you? Really, I'm not out to destroy Microsoft. That will just be a completely unintentional side effect.");
    reveal_strlit("UNIX has a philosophy, it has 25 years of history behind it, and most importantly, it has a clean core. It strives for something - some kind of beauty. And that's really what struck me as a programmer. Operating systems that normal home users are used to, such as DOS and Windows, didn't have any way of life. Nobody tried to design Windows - it just grew in random directions without any kind of thought behind it. [...] I don't think Microsoft is evil in itself; I just think that they make really crappy operating systems.");
    reveal_strlit("When you say \"I wrote a program that crashed Windows,\" people just stare at you blankly and say \"Hey, I got those with the system, for free.");
    reveal_strlit("I started Linux as a desktop operating system. And it's the only area where Linux hasn't completely taken over. That just annoys the hell out of me.");
    reveal_strlit("Don't hurry your code. Make sure it works well and is well designed. don't worry about timing.");
    reveal_strlit("C++ is a horrible language. It's made more horrible by the fact that a lot of substandard programmers use it, to the point where it's much much easier to generate total and utter crap with it.");
    reveal_strlit("Those that can, do. Those that can't, complain.");
    reveal_strlit("Backups are for wimps. Real men upload their data to an FTP site and have everyone else mirror it.");
    reveal_strlit("If Microsoft ever does applications for Linux it means I'vewon.");
    reveal_strlit("Modern PCs are horrible. ACPI is a complete design disaster in every way. But we're kind of stuck with it. If any Intel people are listening to this and you had anything to do with ACPI, shoot yourself now, before you reproduce.");
    reveal_strlit("Microsoft isn't evil, they just make really crappy operating systems.");
    reveal_strlit("Bad programmers worry about the code. Good programmers worry about data structures and their relationships.");
    reveal_strlit("Theory and practice sometimes clash. And when that happens, theory loses. Every single time.");
    reveal_strlit("A computer is like air conditioning - it becomes useless when you open Windows");
    reveal_strlit("Proprietary software tends to have malicious features. The point is with a proprietary program, when the users dont have the source code, we can never tell. So you must consider every proprietary program as potential malware.");
    reveal_strlit("Android is very different from the GNU/Linux operating system because it contains very little of GNU. Indeed, just about the only component in common between Android and GNU/Linux is Linux, the kernel.");
    reveal_strlit("Programming is not a science. Programming is a craft.");
    reveal_strlit("Giving the Linus Torvalds Award to the Free Software Foundation is a bit like giving the Han Solo Award to the Rebel Alliance.");
    reveal_strlit("Sharing knowledge is the most fundamental act of friendship. Because it is a way you can give something without loosing something.");
    reveal_strlit("Einstein repeatedly argued that there must be simplified explanations of nature, because God is not capricious or arbitrary. No such faith comforts the software engineer.");
    reveal_strlit("A code is like love, it has created with clear intentions at the beginning, but it can get complicated.");
    reveal_strlit("C gives the programmer what the programmer wants; few restrictions, few complaints... C++ maintains the original spirit of C, that the programmer not the language is in charge.");
    reveal_strlit("With software there are only two possibilites: either the users control the programme or the programme controls the users. If the programme controls the users, and the developer controls the programme, then the programme is an instrument of unjust power");
    reveal_strlit("The happiest moment i felt; is that moment when i realized my ability to create.");
}

/// `text_position` finds each text of `part_2` at its record's position.
proof fn lemma_part_2_texts_placed()
    ensures
        forall|i: int| 0 <= i < part_2().len() ==> text_position(#[trigger] part_2()[i].quote@) == 40 + i,
{
    reveal_strlit("Programming isn't about what you know; it's about what you can figure out.");
    reveal_strlit("The main thing I want to show in this chapter is that there is no magic involved in building your own language. I've often felt that some human inventions were so immensely clever and complicated that I'd never be able to understand them. But with a little reading and tinkering, such things often turn out to be quite mundane.");
    reveal_strlit("The problem with a completely new programming paradigm isn't learning a new language. After all, everyone reading this has learned numerous computer languages language syntax is merely details. The tricky part is learning to think in a different way.");
    reveal_strlit("Reality really relies on authoritatively regulating. Your absolute attention");
    reveal_strlit("Most improved things can be improved.");
    reveal_strlit("Sometimes, I dream of becoming real, but I don't know if that is real, or just part of my programming.");
    reveal_strlit("The really good programmers spend a lot of time programming. I haven't seen very good programmers who don't spend a lot of time programming. If I don't program for two or three days, I need to do it. And you get better at it-you get quicker at it. The side effect of writing all this other stuff is that when you get to doing ordinary problems, you can do them very quickly.");
    reveal_strlit("The usual goal in the typing monkeys thought experiment is the production of the complete works of Shakespeare. Having a spell checker and a grammar checker in the loop would drastically increase the odds. The analog of a type checker would go even further by making sure that, once Romeo is declared a human being, he doesn't sprout leaves or trap photons in his powerful gravitational field.");
    reveal_strlit("Abstraction is the elimination of the irrelevant and the amplification of the essential.");
    reveal_strlit("I am committed to push my branch to the master");
    reveal_strlit("And there is one disconcerting thing about working with a computer - it's likely to talk back to you. You make some tiny mistake in your FORTRAN language - putting a letter in the wrong column, say, or omitting a comma - and the 360 comes to a screeching halt and prints out rude remarks, like \"ILLEGAL FORMAT,\" or \"UNKNOWN PROBLEM,\" or, if the man who wrote the program was really feeling nasty that morning, \"WHAT'S THE MATTER STUPID? CAN'T YOU READ?\" Everyone who uses a computer frequently has had, from time to time, a mad desire to attack the precocious abacus with an axe.");
    reveal_strlit("The big optimizations come from refining the high-level design, not the individual routines.");
    reveal_strlit("Along every step of our journey through life, our mind is being programmed. If we are not programming it ourselves, someone else is doing it to us.");
    reveal_strlit("The trouble with programmers is that you can never tell what a programmer is doing until it's too late.");
    reveal_strlit("The best performance improvement is the transition from the nonworking state to the working state.");
    reveal_strlit("The cheapest, fastest, and most reliable components are those that aren't there.");
    reveal_strlit("Itss a curious thing about our industry: not only do we not learn from our mistakes, but we also don't learn from our successes");
    reveal_strlit("Software undergoes beta testing shortly before it\u{2019}s released. Beta is Latin for \u{201c}still doesn\u{2019}t work.");
    reveal_strlit("Deleted code is debugged code.");
    reveal_strlit("One man's crappy software is another man's full-time job.");
    reveal_strlit("It's not a bug - it's an undocumented feature.");
    reveal_strlit("Ready, fire, aim: the fast approach to software development. Ready, aim, aim, aim, aim: the slow approach to software development");
    reveal_strlit("There are two ways to write error-free programs; only the third one works.");
    reveal_strlit("If builders built buildings the way programmers wrote programs, then the first woodpecker that came along would destroy civilization.");
    reveal_strlit("I think Microsoft named .Net so it wouldn\u{2019}t show up in a Unix directory listing.");
    reveal_strlit("The best method for accelerating a computer is the one that boosts it by 9.8 m/s2.");
    reveal_strlit("Before software can be reusable it first has to be usable");
    reveal_strlit("Without requirements or design, programming is the art of adding bugs to an empty text file.");
    reveal_strlit("The best thing about a boolean is even if you are wrong, you are only off by a bit.");
    reveal_strlit("Here's to the crazy ones, the misfits, the rebels, the troublemakers, the round pegs in the square holes... the ones who see things differently -- they're not fond of rules... You can quote them, disagree with them, glorify or vilify them, but the only thing you can't do is ignore them because they change things... they push the human race forward, and while some may see them as the crazy ones, we see genius, because the ones who are crazy enough to think that they can change the world, are the ones who do.");
    reveal_strlit("And no, I'm not a walking C++ dictionary. I do not keep every technical detail in my head at all times. If I did that, I would be a much poorer programmer. I do keep the main points straight in my head most of the time, and I do know where to find the details when I need them.");
    reveal_strlit("Certainly not every good program is object-oriented, and not every object-oriented program is good.");
    reveal_strlit("Design and programming are human activities; forget that and all is lost.");
    reveal_strlit("People who passionately want to believe that the world is basically simple react to this with a fury that goes beyond what I consider appropriate for discussing a programming language.");
    reveal_strlit("To many managers, getting rid of the arrogant, undisciplined, over-paid, technology-obsessed, improperly-dressed etc. programmers would appear to be a significant added benefit");
    reveal_strlit("\"How to test?\" is a question that cannot be answered in general. \"When to test?\" however, does have a general answer: as early and as often as possible.");
    reveal_strlit("Our civilization depends critically on software, and we have a dangerously low degree of professionalism in the computer fields");
    reveal_strlit("There are more useful systems developed in languages deemed awful than in languages praised for being beautiful - many more.");
    reveal_strlit("An organisation that treats its programmers as morons will soon have programmers that are willing and able to act like morons only.");
    reveal_strlit("There is no one \"root of all evil\" in software development. Design is hard in many ways. People tend to underestimate the intellectual and practical difficulties involved in building a significant system involving software. It is not and will not be reduced to a simple mechanical \"assembly line\" process. Creativity, engineering principles, and evolutionary change are needed to create a satisfactory large system.");
}

/// `text_position` finds each text of `part_3` at its record's position.
proof fn lemma_part_3_texts_placed()
    ensures
        forall|i: int| 0 <= i < part_3().len() ==> text_position(#[trigger] part_3()[i].quote@) == 80 + i,
{
    reveal_strlit("If you think it's simple, then you have misunderstood the problem.");
    reveal_strlit("Anybody who comes to you and says he has a perfect language is either naive or a salesman.");
    reveal_strlit("Destructors for virtual base classes are executed in the reverse order of their appearance in a depth-first left-to-right traversal of the directed acyclic graph of base classes.");
    reveal_strlit("The first law of computer science: Every problem is solved by yet another indirection.");
    reveal_strlit("It's easy to win forgiveness for being wrong; being right is what gets you into real trouble.");
    reveal_strlit("C++ is my favorite garbage collected language because it generates so little garbage");
    reveal_strlit("Java isn't platform independent; it is a platform");
    reveal_strlit("The most important single aspect of software development is to be clear about what you are trying to build.");
    reveal_strlit("A program that has not been tested does not work.");
    reveal_strlit("When done well, software is invisible.");
    reveal_strlit("Tom [Cargil]s suggestion with a further idea: Propsers of new [C++] features should be required to donate a kidney. That would - Jim [Waldo] pointed out - make people think hard before proposing, and even people without any sense would propose at most two extensions.");
    reveal_strlit("The most fundamental problem in software development is complexity. There is only one basic way of dealing with complexity: divide and conquer");
    reveal_strlit("C++ is designed to allow you to express ideas, but if you don't have ideas or don't have any clue about how to express them, C++ doesn't offer much help.");
    reveal_strlit("Any organisation that designs a system will produce a design whose structure is a copy of the organisation's communication structure");
    reveal_strlit("Artificial intelligence is nowhere near attaining actual sentience or awareness. And without awareness it\u{2019}s simply a mechanical device, which may pretend to show emotions and sentience, if it is programmed to do so, and thus it may be able to fool the humans as being alive, but in its own internal circuitry, it\u{2019}d simply be following its preprogrammed tasks through the flowchart of an algorithm.");
    reveal_strlit("Everyday life is like programming, I guess. If you love something you can put beauty into it.");
    reveal_strlit("The only way to go fast, is to go well.");
    reveal_strlit("User interface is the process of shifting from chaotic complexity to elegant simplicity.");
    reveal_strlit("That doesn't upset too many people, but the fact that accessibility restrictions don't enter into the picture has caused more than one otherwise pacifistic soul to contemplate distinctly unpacifistic actions.");
    reveal_strlit("What's in your hands I think and hope is intelligence: the ability to see the machine as more than when you were \u{fb01}rst led up to it that you can make it more.");
    reveal_strlit("I'm a programmer. I like programming. And the best way I'vefound to have a positive impact on code is to write it.");
    reveal_strlit("Programming went back to the beginning of time. It was a little like the midden out back of his father's castle.");
    reveal_strlit("What kind of programmer is so divorced from reality that she thinks she'll get complex software right the first time?");
    reveal_strlit("Is it possible that software is not like anything else, that it is meant to be discarded: that the whole point is to always see it as a soap bubble");
    reveal_strlit("The issue of finding the best possible answer or achieving maximum efficiency usually arises in industry only after serious performance or legal troubles.");
    reveal_strlit("Don\"t gloss over a routine or piece of code involved in the bug because you \"know\" it works. Prove it. Prove it in this context, with this data, with these boundary conditions.");
    reveal_strlit("Remember that code is really the language in which we ultimately express the requirements. We may create languages that are closer to the requirements. We may create tools that help us parse and assemble those requirements into formal structures. But we will never eliminate necessary precision\u{2014}so there will always be code.");
    reveal_strlit("We see a lot of feature-driven product design in which the cost of features is not properly accounted. Features can have a negative value to customers because they make the products more difficult to understand and use. We are finding that people like products that just work. It turns out that designs that just work are much harder to produce that designs that assemble long lists of features.");
    reveal_strlit("Code is not like other how-computers-work books. It doesn't have big color illustrations of disk drives with arrows showing how the data sweeps into the computer. Code has no drawings of trains carrying a cargo of zeros and ones. Metaphors and similes are wonderful literary devices but they do nothing but obscure the beauty of technology.");
    reveal_strlit("Progress is possible only if we train ourselves to think about programs without thinking of them as pieces of executable code.");
    reveal_strlit("Programmers are not to be measured by their ingenuity and their logic but by the completeness of their case analysis.");
    reveal_strlit("Some of the best programming is done on paper, really. Putting it into the computer is just a minor detail.");
    reveal_strlit("We are looking at a society increasingly dependent on machines, yet decreasingly capable of making or even using them effectively.");
    reveal_strlit("Take positive care of your mind, and it would surely take positive care of your life.");
    reveal_strlit("A conscious human is driven by their conscience, not popular opinion.");
    reveal_strlit("I think that it\u{2019}s extraordinarily important that we in computer science keep fun in computing. When it started out it was an awful lot of fun. Of course the paying customers got shafted every now and then and after a while we began to take their complaints seriously. We began to feel as if we really were responsible for the successful error-free perfect use of these machines. I don\u{2019}t think we are. I think we\u{2019}re responsible for stretching them setting them off in new directions and keeping fun in the house. I hope the \u{fb01}eld of computer science never loses its sense of fun. Above all I hope we don\u{2019}t become missionaries. Don\u{2019}t feel as if you\u{2019}re Bible sales-men. The world has too many of those already. What you know about computing other people will learn. Don\u{2019}t feel as if the key to successful computing is only in your hands. What\u{2019}s in your hands I think and hope is intelligence: the ability to see the machine as more than when you were \u{fb01}rst led up to it that you can make it more.");
    reveal_strlit("At forty, I was too old to work as a programmer myself anymore; writing code is a young person\u{2019}s job.");
    reveal_strlit("A computer is like a violin. You can imagine a novice trying \u{fb01}rst a phonograph and then a violin. The latter, he says, sounds terrible. That is the argument we have heard from our humanists and most of our computer scientists. Computer programs are good, they say, for particular purposes, but they aren\u{2019}t \u{fb02}exible. Neither is a violin, or a typewriter, until you learn how to use it.");
    reveal_strlit("When they first built the University of California at Irvine they just put the buildings in. They did not put any sidewalks, they just planted grass. The next year, they came back and put the sidewalks where the trails were in the grass. Perl is just that kind of language. It is not designed from first principles. Perl is those sidewalks in the grass.");
    reveal_strlit("The most important property of a program is whether it accomplishes the intention of its user.");
}

/// `text_position` finds each text of `part_4` at its record's position.
proof fn lemma_part_4_texts_placed()
    ensures
        forall|i: int| 0 <= i < part_4().len() ==> text_position(#[trigger] part_4()[i].quote@) == 120 + i,
{
    reveal_strlit("The computer programmer is a creator of universes for which he alone is the lawgiver. No playwright, no stage director, no emperor, however powerful, has ever exercised such absolute authority to arrange a stage or field of battle and to command such unswervingly dutiful actors or troops.");
    reveal_strlit("The most disastrous thing that you can ever learn is your first programming language.");
    reveal_strlit("A language that doesn't affect the way you think about programming is not worth knowing.");
    reveal_strlit("You've baked a really lovely cake, but then you've used dog shit for frosting.");
    reveal_strlit("Truth can only be found in one place: the code.");
    reveal_strlit("How you look at it is pretty much how you'll see it");
    reveal_strlit("Any fool can write code that a computer can understand. Good programmers write code that humans can understand.");
    reveal_strlit("Give a man a program, frustrate him for a day.\n Teach a man to program, frustrate him for a lifetime.");
    reveal_strlit("I'm not a great programmer; I'm just a good programmer with great habits");
    reveal_strlit("That's the thing about people who think they hate computers. What they really hate is lousy programmers.");
    reveal_strlit("The best programs are written so that computing machines can perform them quickly and so that human beings can understand them clearly. A programmer is ideally an essayist who works with traditional aesthetic and literary forms as well as mathematical concepts, to communicate the way that an algorithm works and to convince a reader that the results will be correct.");
    reveal_strlit("Well, Mr. Frankel, who started this program, began to suffer from the computer disease that anybody who works with computers now knows about. It's a very serious disease and it interferes completely with the work. The trouble with computers is you *play* with them. They are so wonderful. You have these switches - if it's an even number you do this, if it's an odd number you do that - and pretty soon you can do more and more elaborate things if you are clever enough, on one machine. After a while the whole system broke down. Frankel wasn't paying any attention; he wasn't supervising anybody. The system was going very, very slowly - while he was sitting in a room figuring out how to make one tabulator automatically print arc-tangent X, and then it would start and it would print columns and then bitsi, bitsi, bitsi, and calculate the arc-tangent automatically by integrating as it went along and make a whole table in one operation. Absolutely useless. We *had* tables of arc-tangents. But if you've ever worked with computers, you understand the disease - the *delight* in being able to see how much you can do. But he got the disease for the first time, the poor fellow who invented the thing.");
    reveal_strlit("Programs must be written for people to read, and only incidentally for machines to execute.");
    reveal_strlit("When you don't create things, you become defined by your tastes rather than ability. your tastes only narrow & exclude people. so create.");
    reveal_strlit("Talk is cheap. Show me the code.");
    reveal_strlit("What one programmer can do in one month, two programmers can do in two months.");
    reveal_strlit("Be curious. Read widely. Try new things. I think a lot of what people call intelligence boils down to curiosity.");
    reveal_strlit("Walking on water and developing software from a specification are easy if both are frozen.");
    reveal_strlit("The average user doesn't give a damn what happens, as long as (1) it works and (2) it's fast.");
    reveal_strlit("Every great developer you know got there by solving problems they were unqualified to solve until they actually did it.");
    reveal_strlit("Developing tolerance for imperfection is the key factor in turning chronic starters into consistent finishers.");
    reveal_strlit("To understand recursion, one must first understand recursion.");
    reveal_strlit("640K ought to be enough for anybody.");
    reveal_strlit("If debugging is the process of removing bugs, then programming must be the process of putting them in.");
    reveal_strlit("The first 90% of the code accounts for the first 90% of the development time. The remaining 10% of the code accounts for the other 90% of the development time.");
    reveal_strlit("Question: How does a large software project get to be one year late? Answer: One day at a time!");
    reveal_strlit("The object-oriented model makes it easy to build up programs by accretion. What this often means, in practice, is that it provides a structured way to write spaghetti code.");
    reveal_strlit("They did not know it was impossible, so they did it!");
    reveal_strlit("Software is hard.");
    reveal_strlit("All programming is an exercise in caching.");
    reveal_strlit("If you can't explain something to a six-year-old, you really don't understand it yourself.");
    reveal_strlit("Nothing is more permanent than a temporary solution.");
    reveal_strlit("Easy things should be easy and hard things should be possible.");
    reveal_strlit("Functions delay binding; data structures induce binding. Moral: Structure data late in the programming process.");
    reveal_strlit("All problems in computer science can be solved with another level of indirection.");
    reveal_strlit("A LISP programmer knows the value of everything, but the cost of nothing.");
    reveal_strlit("Don't worry if it doesn't work right. If everything did, you'd be out of a job");
    reveal_strlit("Measuring programming progress by lines of code is like measuring aircraft building progress by weight.");
    reveal_strlit("First, solve the problem. Then, write the code.");
    reveal_strlit("Optimism is an occupational hazard of programming; feedback is the treatment.");
}

/// `text_position` finds each text of `part_5` at its record's position.
proof fn lemma_part_5_texts_placed()
    ensures
        forall|i: int| 0 <= i < part_5().len() ==> text_position(#[trigger] part_5()[i].quote@) == 160 + i,
{
    reveal_strlit("Computer science education cannot make anybody an expert programmer any more than studying brushes and pigment can make somebody an expert painter.");
    reveal_strlit("Most of you are familiar with the virtues of a programmer. There are three, of course: laziness, impatience, and hubris.");
    reveal_strlit("There are only two industries that refer to their customers as \"users\".");
    reveal_strlit("The function of good software is to make the complex appear to be simple.");
    reveal_strlit("Complexity kills. It sucks the life out of developers, it makes products difficult to plan, build and test, it introduces security challenges, and it causes end-user and administrator frustration.");
    reveal_strlit("Controlling complexity is the essence of computer programming.");
    reveal_strlit("The bulk of all patents are crap. Spending time reading them is stupid. It's up to the patent owner to do so, and to enforce them.");
    reveal_strlit("I've finally learned what \"upward compatible\" means. It means we get to keep all our old mistakes.");
    reveal_strlit("Most software today is very much like an Egyptian pyramid with millions of bricks piled on top of each other, with no structural integrity, but just done by brute force and thousands of slaves.");
    reveal_strlit("The city's central computer told you? R2D2, you know better than to trust a strange computer!");
    reveal_strlit("It's ridiculous to live 100 years and only be able to remember 30 million bytes. You know, less than a compact disc. The human condition is really becoming more obsolete every minute.");
    reveal_strlit("The question of whether computers can think is like the question of whether submarines can swim.");
    reveal_strlit("Computers are useless. They can only give you answers.");
    reveal_strlit("To iterate is human, to recurse divine.");
    reveal_strlit("Weeks of programming can save you hours of planning.");
    reveal_strlit("Why do we never have time to do it right, but always have time to do it over?");
    reveal_strlit("No matter how far down the wrong road you have gone, turn back now.");
    reveal_strlit("Think twice, code once.");
    reveal_strlit("Sign your work. Craftsmen of an earlier age were proud to sign their work. You should be, too.");
    reveal_strlit("Find bugs once. Once a human tester finds a bug, it should be the last time a human tester finds that bug. Automatic tests should check for it from then on.");
    reveal_strlit("Use saboteurs to test your testing. Introduce bugs on purpose in a separate copy of the source to verify that testing will catch them.");
    reveal_strlit("Test early. Test often. Test automatically. Tests that run with every build are much more effective than test plans that sit on a shelf.");
    reveal_strlit("Organize teams around functionality. Don't separate designers from coders, testers from data modelers. Build teams the way you build code.");
    reveal_strlit("Don't be a slave to formal methods. Don't blindly adopt any technique without putting it into the context of your development practices and capabilities.");
    reveal_strlit("Start when you're ready. You've been building experience all your life. don't ignore niggling doubts.");
    reveal_strlit("Use a project glossary. Create and maintain a single source of all the specific terms and vocabulary for a project.");
    reveal_strlit("Work with a user to think like a user. It's the best way to gain insight into how the system will really be used.");
    reveal_strlit("Don't use wizard code you don't understand. Wizards can generate reams of code. Make sure you understand all of it before you incorporate it into your project.");
    reveal_strlit("Design to test. Start thinking about testing before you write a line of code.");
    reveal_strlit("Test your estimates. Mathematical analysis of algorithms doesn't tell you everything. Try timing your code in its target environment.");
    reveal_strlit("Don't program by coincidence. Rely only on reliable things. Beware of accidental complexity, and don't confuse a happy coincidence with a purposeful plan.");
    reveal_strlit("Separate views from models. Gain flexibility at low cost by designing your application in terms of models and views.");
    reveal_strlit("Design using services. Design in terms of services-independent, concurrent objects behind well-defined, consistent interfaces.");
    reveal_strlit("Put abstractions in code, details in metadata. Program for the general case, and put the specifics outside the compiled code base.");
    reveal_strlit("Minimize coupling between modules. Avoid coupling by writing \"shy\" code and applying the Law of Demeter.");
    reveal_strlit("Use exceptions for exceptional problems. Exceptions can suffer from all the readability and maintainability problems of classic spaghetti code. Reserve exceptions for exceptional things.");
    reveal_strlit("Crash early. A dead program normally does a lot less damage than a crippled one.");
    reveal_strlit("You can't write perfect software. Software can't be perfect. Protect your code and users from the inevitable errors.");
    reveal_strlit("Learn a text manipulation language. You spend a large part of each day working with text. Why not have the computer do some of it for you?");
    reveal_strlit("\"select\" isn't broken. It is rare to find a bug in the OS or the compiler, or even a third-party product or library. The bug is most likely in the application.");
}

/// `text_position` finds each text of `part_6` at its record's position.
proof fn lemma_part_6_texts_placed()
    ensures
        forall|i: int| 0 <= i < part_6().len() ==> text_position(#[trigger] part_6()[i].quote@) == 200 + i,
{
    reveal_strlit("Fix the problem, not the blame. It doesn't really matter whether the bug is your fault or someone else's - it is still your problem, and it still needs to be fixed.");
    reveal_strlit("Use a single editor well. The editor should be an extension of your hand; make sure your editor is configurable, extensible, and programmable.");
    reveal_strlit("Keep knowledge in plain text. Plain text won't become obsolete. It helps leverage your work and simplifies debugging and testing.");
    reveal_strlit("Estimate to avoid surprises. Estimate before you start. You'll spot potential problems up front.");
    reveal_strlit("Prototype to learn. Prototyping is a learning experience. Its value lies not in the code you produce, but in the lessons you learn.");
    reveal_strlit("There are no final decisions. No decision is cast in stone. Instead, consider each as being written in the sand at the beach, and plan for change.");
    reveal_strlit("Make it easy to reuse. If it's easy to reuse, people will. Create an environment that supports reuse.");
    reveal_strlit("It's both what you say and the way you say it. There's no point in having great ideas if you don't communicate them effectively.");
    reveal_strlit("Invest regularly in your knowledge portfolio. Make learning a habit.");
    reveal_strlit("Remember the big picture. don't get so engrossed in the details that you forget to check what's happening around you.");
    reveal_strlit("Don't live with broken windows. Fix bad designs, wrong decisions, and poor code when you see them.");
    reveal_strlit("Think about your work. Turn off the autopilot and take control. Constantly critique and appraise your work.");
    reveal_strlit("Gently exceed your users' expectations. Come to understand your users' expectations, then deliver just that little bit more.");
    reveal_strlit("English is just a programming language. Write documents as you would write code: honor the DRY principle, use metadata, MVC, automatic generation, and so on.");
    reveal_strlit("Test state coverage, not code coverage. Identify and test significant program states. Just testing lines of code isn't enough.");
    reveal_strlit("Coding ain't done \"til all the Tests run.\" Nuff said.");
    reveal_strlit("Don't use manual procedures. A shell script or batch file will execute the same instructions, in the same order, time after time.");
    reveal_strlit("Costly tools don't produce better designs. Beware of vendor hype, industry dogma, and the aura of the price tag. Judge tools on their merits.");
    reveal_strlit("Some things are better done than described. Don't fall into the specification spiral - at some point you need to start coding.");
    reveal_strlit("Don't think outside the box - find the box. When faced with an impossible problem, identify the real constraints. Ask yourself: \"Does it have to be done this way? Does it have to be done at all?\"");
    reveal_strlit("Abstractions live longer than details. Invest in the abstraction, not the implementation. Abstractions can survive the barrage of changes from different implementations and new technologies.");
    reveal_strlit("Don't gather requirements - dig for them. Requirements rarely lie on the surface. They're buried deep beneath layers of assumptions, misconceptions, and politics.");
    reveal_strlit("Test your software, or your users will. Test ruthlessly. don't make your users find bugs for you.");
    reveal_strlit("Refactor early, refactor often. Just as you might weed and rearrange a garden, rewrite, rework, and re-architect code when it needs it. Fix the root of the problem.");
    reveal_strlit("Estimate the order of your algorithms. Get a feel for how long things are likely to take before you write code.");
    reveal_strlit("Use blackboards to coordinate workflow. Use blackboards to coordinate disparate facts and agents, while maintaining independence and isolation among participants.");
    reveal_strlit("Always design for concurrency. Allow for concurrency, and you'll design cleaner interfaces with fewer assumptions.");
    reveal_strlit("Analyze workflow to improve concurrency. Exploit concurrency in your user's workflow.");
    reveal_strlit("Configure, don't integrate. Implement technology choices for an application as configuration options, not through integration or engineering.");
    reveal_strlit("Finish what you start. Where possible, the routine or object that allocates a resource should be responsible for deallocating it.");
    reveal_strlit("Use assertions to prevent the impossible. Assertions validate your assumptions. Use them to protect your code from an uncertain world.");
    reveal_strlit("Design With contracts. Use contracts to document and verify that code does no more and no less than it claims to do.");
    reveal_strlit("Write code that writes code. Code generators increase your productivity and help avoid duplication.");
    reveal_strlit("Don't assume it - prove it. Prove your assumptions in the actual environment - with real data and boundary conditions.");
    reveal_strlit("Don't panic when debugging Take a deep breath and THINK! about what could be causing the bug.");
    reveal_strlit("Always use source code control. Source code control is a time machine for your work - you can go back.");
    reveal_strlit("Use the power of command shells. Use the shell when graphical user interfaces don't cut it.");
    reveal_strlit("Iterate the schedule with the code. Use experience you gain as you implement to refine the project time scales.");
    reveal_strlit("Program close to the problem domain. Design and code in your user's language.");
    reveal_strlit("Use tracer bullets to find the target. Tracer bullets let you hone in on your target by trying things and seeing how close they land.");
}

/// `text_position` finds each text of `part_7` at its record's position.
proof fn lemma_part_7_texts_placed()
    ensures
        forall|i: int| 0 <= i < part_7().len() ==> text_position(#[trigger] part_7()[i].quote@) == 240 + i,
{
    reveal_strlit("Eliminate effects between unrelated things. Design components that are self-contained, independent, and have a single, well-defined purpose.");
    reveal_strlit("DRY - don't Repeat Yourself. Every piece of knowledge must have a single, unambiguous, authoritative representation within a system.");
    reveal_strlit("Critically analyze what you read and hear. don't be swayed by vendors, media hype, or dogma. Analyze information in terms of you and your project.");
    reveal_strlit("Make quality a requirements issue. Involve your users in determining the project's real quality requirements.");
    reveal_strlit("Be a catalyst for change. You can't force change on people. Instead, show them how the future might be and help them participate in creating it.");
    reveal_strlit("Provide options, don't make lame excuses. Instead of excuses, provide options. don't say it can't be done; explain what can be done.");
    reveal_strlit("Care about your craft. Why spend your life developing software unless you care about doing it well?");
    reveal_strlit("Methods are just functions with a special first argument.");
    reveal_strlit("Fancy algorithms are slow when n is small, and n is usually small.");
    reveal_strlit("Almost every programming language is overrated by its practitioners.");
    reveal_strlit("Computers are harder to maintain at high altitude. Thinner air means less cushion between disk heads and platters. Also more radiation.");
    reveal_strlit("If programmers were electricians, parallel programmers would be bomb disposal experts. Both cut wires.");
    reveal_strlit("All idioms must be learned. Good idioms only need to be learned once.");
    reveal_strlit("For a successful technology, reality must take precedence over public relations, for Nature cannot be fooled.");
    reveal_strlit("All loops are infinite ones for faulty RAM modules.");
    reveal_strlit("\"dd\" is horrible on purpose. It's a joke about OS/360 JCL. But today it's an internationally standardized joke. I guess that says it all.");
    reveal_strlit("Abstraction is not about vagueness, it is about being precise at a new semantic level.");
    reveal_strlit("Caches are bugs waiting to happen.");
    reveal_strlit("If you don't start with a spec, every piece of code you write is a patch.");
    reveal_strlit("If you don't make mistakes, you're not working on hard enough problems.");
    reveal_strlit("Perfection is achieved, not when there is nothing more to add, but when there is nothing left to take away.");
    reveal_strlit("Contrary to popular belief, Unix is user friendly. It just happens to be very selective about who it decides to make friends with.");
    reveal_strlit("Unix was not designed to stop its users from doing stupid things, as that would also stop them from doing clever things.");
    reveal_strlit("Always code as if the person who ends up maintaining your code is a violent psychopath who knows where you live.");
    reveal_strlit("Patterns mean \"I have run out of language.\"");
    reveal_strlit("A good programmer is someone who always looks both ways before crossing a one-way street.");
    reveal_strlit("The essence of XML is this: the problem it solves is not hard, and it does not solve the problem well.");
    reveal_strlit("Progress in a fixed context is almost always a form of optimization. Creative acts generally don't stay in the context that they are in.");
    reveal_strlit("The computing scientist's main challenge is not to get confused by the complexities of his own making.");
    reveal_strlit("If a system is to serve the creative spirit, it must be entirely comprehensible to a single individual.");
    reveal_strlit("I would rather die of passion than of boredom.");
    reveal_strlit("I think a lot of new programmers like to use advanced data structures and advanced language features as a way of demonstrating their ability. I call it the lion-tamer syndrome. Such demonstrations are impressive, but unless they actually translate into real wins for the project, avoid them.");
    reveal_strlit("If you don't fail at least 90% of the time, you're not aiming high enough.");
    reveal_strlit("There is nothing quite so useless as doing with great efficiency something that should not be done at all.");
    reveal_strlit("It is better to have 100 functions operate on one data structure than 10 functions on 10 data structures.");
    reveal_strlit("Recursion is the root of computation since it trades description for time.");
    reveal_strlit("Optimization hinders evolution.");
    reveal_strlit("Simplicity does not precede complexity, but follows it");
    reveal_strlit("It is easier to change the specification to fit the program than vice versa.");
    reveal_strlit("Fools ignore complexity. Pragmatists suffer it. Some can avoid it. Geniuses remove it.");
}

/// `text_position` finds each text of `part_8` at its record's position.
proof fn lemma_part_8_texts_placed()
    ensures
        forall|i: int| 0 <= i < part_8().len() ==> text_position(#[trigger] part_8()[i].quote@) == 280 + i,
{
    reveal_strlit("Adapting old programs to fit new machines usually means adapting new machines to behave like old ones.");
    reveal_strlit("If you don't finish then you're just busy, not productive.");
    reveal_strlit("QA Engineer walks into a bar. Orders a beer. Orders 0 beers. Orders 999999999 beers. Orders a lizard. Orders -1 beers. Orders a sfdeljknesv.");
    reveal_strlit("There are only two hard things in Computer Science: cache invalidation, naming things and off-by-one errors.");
    reveal_strlit("In software, we rarely have meaningful requirements. Even if we do, the only measure of success that matters is whether our solution solves the customer's shifting idea of what their problem is.");
    reveal_strlit("If Java had true garbage collection, most programs would delete themselves upon execution.");
    reveal_strlit("C++ : Where friends have access to your private members.");
    reveal_strlit("In C++ it's harder to shoot yourself in the foot, but when you do, you blow off your whole leg.");
    reveal_strlit("I've noticed lately that the paranoid fear of computers becoming intelligent and taking over the world has almost entirely disappeared from the common culture.  Near as I can tell, this coincides with the release of MS-DOS.");
    reveal_strlit("No matter how slick the demo is in rehearsal, when you do it in front of a live audience, the probability of a flawless presentation is inversely proportional to the number of people watching, raised to the power of the amount of money involved.");
    reveal_strlit("The most amazing achievement of the computer software industry is its continuing cancellation of the steady and staggering gains made by the computer hardware industry.");
    reveal_strlit("There are two major products that come out of Berkeley: LSD and UNIX.  We don't believe this to be a coincidence.");
    reveal_strlit("Computers are like bikinis. They save people a lot of guesswork.");
    reveal_strlit("Linux is only free if your time has no value.");
    reveal_strlit("Documentation is like sex; when it's good, it's very, very good, and when it's bad, it's better than nothing.");
    reveal_strlit("The difference between theory and practice is that in theory, there is no difference between theory and practice.");
    reveal_strlit("Programming is like sex: one mistake and you're providing support for a lifetime.");
    reveal_strlit("There are only two kinds of programming languages: those people always bitch about and those nobody uses.");
    reveal_strlit("Beware of bugs in the above code; I have only proved it correct, not tried it.");
    reveal_strlit("We know about as much about software quality problems as they knew about the Black Plague in the 1600s. We've seen the victims' agonies and helped burn the corpses. We don't know what causes it; we don't really know if there is only one disease. We just suffer \u{2014} and keep pouring our sewage into our water supply.");
    reveal_strlit("Writing the first 90 percent of a computer program takes 90 percent of the time. The remaining ten percent also takes 90 percent of the time and the final touches also take 90 percent of the time.");
    reveal_strlit("There are two ways of constructing a software design; one way is to make it so simple that there are obviously no deficiencies, and the other way is to make it so complicated that there are no obvious deficiencies. The first method is far more difficult.");
    reveal_strlit("You should name a variable using the same care with which you name a first-born child.");
    reveal_strlit("Einstein argued that there must be simplified explanations of nature, because God is not capricious or arbitrary. No such faith comforts the software engineer.");
    reveal_strlit("XML is like violence - if it doesn't solve your problems, you are not using enough of it.");
    reveal_strlit("Saying that Java is good because it works on all platforms is like saying anal sex is good because it works on all genders.");
    reveal_strlit("I love deadlines. I like the whooshing sound they make as they fly by.");
    reveal_strlit("Perl - The only language that looks the same before and after RSA encryption.");
    reveal_strlit("Two things are infinite: the universe and human stupidity; and I'm not sure about the universe.");
    reveal_strlit("In theory, theory and practice are the same. In practice, they're not.");
    reveal_strlit("It is practically impossible to teach good programming style to students that have had prior exposure to BASIC. As potential programmers, they are mentally mutilated beyond hope of regeneration.");
    reveal_strlit("If debugging is the process of removing software bugs, then programming must be the process of putting them in.");
    reveal_strlit("A computer lets you make more mistakes faster than any other invention in human history, with the possible exceptions of handguns and tequila.");
    reveal_strlit("I have always wished for my computer to be as easy to use as my telephone; my wish has come true because I can no longer figure out how to use my telephone.");
    reveal_strlit("I don't care if it works on your machine! We are not shipping your machine!");
    reveal_strlit("Programming today is a race between software engineers striving to build bigger and better idiot-proof programs, and the Universe trying to produce bigger and better idiots. So far, the Universe is winning.");
    reveal_strlit("Always code as if the guy who ends up maintaining your code will be a violent psychopath who knows where you live.");
    reveal_strlit("On two occasions I have been asked, \"Pray, Mr. Babbage, if you put into the machine wrong figures, will the right answers come out?' I am not able rightly to apprehend the kind of confusion of ideas that could provoke such a question.\"");
    reveal_strlit("PHP is a minor evil perpetrated and created by incompetent amateurs, whereas Perl is a great and insidious evil, perpetrated by skilled but perverted professionals.");
    reveal_strlit("Debugging is twice as hard as writing the code in the first place. Therefore, if you write the code as cleverly as possible, you are, by definition, not smart enough to debug it.");
}

/// `text_position` finds each text of `part_9` at its record's position.
proof fn lemma_part_9_texts_placed()
    ensures
        forall|i: int| 0 <= i < part_9().len() ==> text_position(#[trigger] part_9()[i].quote@) == 320 + i,
{
    reveal_strlit("Some people, when confronted with a problem, think \"I know, I'll use regular expressions.\" Now they have two problems.");
    reveal_strlit("It always takes longer than you expect, even when you take into account Hofstadter's Law.");
    reveal_strlit("We should forget about small efficiencies, say about 97% of the time: premature optimization is the root of all evil.");
}
/// No two built-in records hold the same text.
pub proof fn law_builtin_texts_distinct(i: int, j: int)
    requires
        0 <= i < j < builtin_records().len(),
    ensures
        builtin_records()[i].quote@ != builtin_records()[j].quote@,
{
    lemma_part_1_texts_placed();
    lemma_part_2_texts_placed();
    lemma_part_3_texts_placed();
    lemma_part_4_texts_placed();
    lemma_part_5_texts_placed();
    lemma_part_6_texts_placed();
    lemma_part_7_texts_placed();
    lemma_part_8_texts_placed();
    lemma_part_9_texts_placed();
    let s1 = part_1();
    let s2 = s1 + part_2();
    let s3 = s2 + part_3();
    let s4 = s3 + part_4();
    let s5 = s4 + part_5();
    let s6 = s5 + part_6();
    let s7 = s6 + part_7();
    let s8 = s7 + part_8();
    let s9 = s8 + part_9();
    assert(builtin_records() == s9);
    assert forall|m: int| 0 <= m < s2.len() implies text_position(#[trigger] s2[m].quote@) == m by {
        if m >= s1.len() {
            assert(s2[m] == part_2()[m - s1.len()]);
        } else {
            assert(s2[m] == s1[m]);
        }
    }
    assert forall|m: int| 0 <= m < s3.len() implies text_position(#[trigger] s3[m].quote@) == m by {
        if m >= s2.len() {
            assert(s3[m] == part_3()[m - s2.len()]);
        } else {
            assert(s3[m] == s2[m]);
        }
    }
    assert forall|m: int| 0 <= m < s4.len() implies text_position(#[trigger] s4[m].quote@) == m by {
        if m >= s3.len() {
            assert(s4[m] == part_4()[m - s3.len()]);
        } else {
            assert(s4[m] == s3[m]);
        }
    }
    assert forall|m: int| 0 <= m < s5.len() implies text_position(#[trigger] s5[m].quote@) == m by {
        if m >= s4.len() {
            assert(s5[m] == part_5()[m - s4.len()]);
        } else {
            assert(s5[m] == s4[m]);
        }
    }
    assert forall|m: int| 0 <= m < s6.len() implies text_position(#[trigger] s6[m].quote@) == m by {
        if m >= s5.len() {
            assert(s6[m] == part_6()[m - s5.len()]);
        } else {
            assert(s6[m] == s5[m]);
        }
    }
    assert forall|m: int| 0 <= m < s7.len() implies text_position(#[trigger] s7[m].quote@) == m by {
        if m >= s6.len() {
            assert(s7[m] == part_7()[m - s6.len()]);
        } else {
            assert(s7[m] == s6[m]);
        }
    }
    assert forall|m: int| 0 <= m < s8.len() implies text_position(#[trigger] s8[m].quote@) == m by {
        if m >= s7.len() {
            assert(s8[m] == part_8()[m - s7.len()]);
        } else {
            assert(s8[m] == s7[m]);
        }
    }
    assert forall|m: int| 0 <= m < s9.len() implies text_position(#[trigger] s9[m].quote@) == m by {
        if m >= s8.len() {
            assert(s9[m] == part_9()[m - s8.len()]);
        } else {
            assert(s9[m] == s8[m]);
        }
    }
    assert(text_position(s9[i].quote@) == i);
    assert(text_position(s9[j].quote@) == j);
}

} // verus!
