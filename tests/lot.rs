use lex_catalog::comments::{in_posting_order, Comment};
use lex_catalog::date::CalendarDate;
use lex_catalog::deps::{
    dependents_of, parse_dependencies, resolve_dependencies, Candidate, DependencyEntry,
    DependencyRef, LotSummary,
};
use lex_catalog::error::Error;
use lex_catalog::lot::{assemble, ExpansionFlags, Fetched, Links, Lot, LotView};
use lex_catalog::size::{HumanSize, SizeUnit};
use lex_catalog::text::parse_u64;
use lex_catalog::votes::VoteTally;

fn lot(id: u64) -> Lot {
    Lot {
        lotid: id,
        lotname: "  Harbor Bridge \n".to_string(),
        version: " 1.2 ".to_string(),
        usrid: 5,
        lotdownloads: 77,
        lexexcl: "F".to_string(),
        lotdesc: vec![0x43, 0x61, 0x66, 0xE9],
        lotimgday: "day.png".to_string(),
        lotimgnigt: "night.png".to_string(),
        biglotimg: "big.png".to_string(),
        acclvl: 2,
        admlock: "F".to_string(),
        usrlock: "F".to_string(),
        isactive: "T".to_string(),
        dateon: "20230115".to_string(),
        lastupdate: "20240229".to_string(),
        lotfile: "bridge.zip".to_string(),
        deps: "12$34$$abc".to_string(),
    }
}

fn links() -> Links {
    Links {
        index_link: "http://ex.org/".to_string(),
        img_link: "http://ex.org/images/".to_string(),
    }
}

fn none() -> ExpansionFlags {
    ExpansionFlags {
        comments: false,
        votes: false,
        dependencies: false,
        categories: false,
        dependents: false,
        user: false,
    }
}

fn all() -> ExpansionFlags {
    ExpansionFlags {
        comments: true,
        votes: true,
        dependencies: true,
        categories: true,
        dependents: true,
        user: true,
    }
}

fn nothing_fetched() -> Fetched {
    Fetched {
        comments: vec![],
        ratings: vec![],
        dependencies: vec![],
        categories: vec![],
        dependents: vec![],
        last_download: None,
    }
}

fn comment(id: u64, posted: u64) -> Comment {
    Comment {
        id,
        author: "ann".to_string(),
        text: format!("note {id}"),
        date: posted.to_string(),
        posted,
    }
}

fn summary(id: u64, name: &str) -> LotSummary {
    LotSummary { id, name: name.to_string() }
}

fn view(l: Lot, flags: ExpansionFlags, caller: Option<u64>, fetched: Fetched) -> LotView {
    match assemble(&links(), Some(l), Some("mayor".to_string()), 1536, flags, caller, fetched) {
        Ok(v) => v,
        Err(e) => panic!("unexpected error {:?}", e),
    }
}

#[test]
fn missing_lot_is_not_found() {
    let r = assemble(&links(), None, None, 0, none(), None, nothing_fetched());
    assert!(matches!(r, Err(Error::NotFound)));
    let r = assemble(&links(), None, None, 0, all(), Some(3), nothing_fetched());
    assert!(matches!(r, Err(Error::NotFound)));
}

#[test]
fn no_expansions_leave_every_optional_part_absent() {
    let v = view(lot(9), none(), Some(4), nothing_fetched());
    assert!(v.comments.is_none());
    assert!(v.votes.is_none());
    assert!(v.dependencies.is_none());
    assert!(v.categories.is_none());
    assert!(v.dependents.is_none());
    assert!(v.last_downloaded.is_none());
}

#[test]
fn derived_fields() {
    let v = view(lot(9), none(), None, nothing_fetched());
    assert_eq!(v.id, 9);
    assert_eq!(v.name, "Harbor Bridge");
    assert_eq!(v.version, "1.2");
    assert_eq!(v.num_downloads, 77);
    assert_eq!(v.author, Some("mayor".to_string()));
    assert!(!v.is_exclusive);
    assert_eq!(v.description, "Café");
    assert_eq!(v.images.primary, "http://ex.org/images/day.png");
    assert_eq!(v.images.secondary, "http://ex.org/images/night.png");
    assert_eq!(v.images.extra, "http://ex.org/images/big.png");
    assert_eq!(v.link, "http://ex.org/lex_filedesc.php?lotGET=9");
    assert!(v.is_certified);
    assert!(v.is_active);
    assert_eq!(v.upload_date, Some(CalendarDate { year: 2023, month: 1, day: 15 }));
    assert_eq!(v.update_date, Some(CalendarDate { year: 2024, month: 2, day: 29 }));
    assert_eq!(v.filesize, HumanSize { unit: SizeUnit::Kilobytes, whole: 1, hundredths: 50 });
    assert_eq!(v.filesize.text(), "1.50 KB");
}

#[test]
fn admin_lock_makes_a_lot_inactive() {
    let mut l = lot(1);
    l.admlock = "T".to_string();
    assert!(!view(l, none(), None, nothing_fetched()).is_active);
    let mut l = lot(1);
    l.usrlock = "T".to_string();
    assert!(!view(l, none(), None, nothing_fetched()).is_active);
    let mut l = lot(1);
    l.isactive = "F".to_string();
    assert!(!view(l, none(), None, nothing_fetched()).is_active);
}

#[test]
fn uncertified_and_exclusive() {
    let mut l = lot(1);
    l.acclvl = 0;
    l.lexexcl = "T".to_string();
    let v = view(l, none(), None, nothing_fetched());
    assert!(!v.is_certified);
    assert!(v.is_exclusive);
}

#[test]
fn unreadable_dates_read_as_none() {
    let mut l = lot(1);
    l.dateon = "2023-01-15".to_string();
    l.lastupdate = "20230230".to_string();
    let v = view(l, none(), None, nothing_fetched());
    assert_eq!(v.upload_date, None);
    assert_eq!(v.update_date, None);
}

#[test]
fn all_expansions() {
    let fetched = Fetched {
        comments: vec![comment(1, 20230105), comment(2, 20230101)],
        ratings: vec![1, 3, 3],
        dependencies: vec![summary(12, "Base textures")],
        categories: vec![],
        dependents: vec![
            Candidate { summary: summary(50, "Pier"), deps: "9$3".to_string() },
            Candidate { summary: summary(51, "Quay"), deps: "19".to_string() },
        ],
        last_download: Some("20240101".to_string()),
    };
    let v = view(lot(9), all(), Some(4), fetched);
    assert_eq!(v.comments, Some(vec![comment(2, 20230101), comment(1, 20230105)]));
    assert_eq!(v.votes, Some(VoteTally { ones: 1, twos: 0, threes: 2, other: 0 }));
    assert_eq!(
        v.dependencies,
        Some(vec![
            DependencyEntry::Resolved(summary(12, "Base textures")),
            DependencyEntry::Missing(34),
            DependencyEntry::Unreadable("abc".to_string()),
        ])
    );
    assert_eq!(v.categories, Some(vec![]));
    assert_eq!(v.dependents, Some(vec![summary(50, "Pier")]));
    assert_eq!(v.last_downloaded, Some(Some("20240101".to_string())));
}

#[test]
fn download_state_needs_a_caller() {
    let mut fetched = nothing_fetched();
    fetched.last_download = Some("20240101".to_string());
    let v = view(lot(9), all(), None, fetched);
    assert!(v.last_downloaded.is_none());
    let v = view(lot(9), all(), Some(2), nothing_fetched());
    assert_eq!(v.last_downloaded, Some(None));
}

#[test]
fn fetch_plan_follows_flags() {
    let l = lot(9);
    let p = none().plan(&l, Some(3));
    assert!(!p.comments && !p.votes && !p.categories && !p.dependents);
    assert!(p.dependency_ids.is_none());
    assert!(p.download_of.is_none());
    let p = all().plan(&l, Some(3));
    assert_eq!(p.dependency_ids, Some(vec![12, 34]));
    assert_eq!(p.download_of, Some(3));
    assert!(all().plan(&l, None).download_of.is_none());
}

#[test]
fn two_lots_assembled_independently() {
    let mut second = lot(20);
    second.admlock = "T".to_string();
    second.lotname = "Mill".to_string();
    let mut f1 = nothing_fetched();
    f1.ratings = vec![2];
    let mut f2 = nothing_fetched();
    f2.ratings = vec![1, 1];
    let a = view(lot(10), all(), Some(1), f1);
    let b = view(second, all(), Some(2), f2);
    assert_eq!(a.id, 10);
    assert_eq!(b.id, 20);
    assert!(a.is_active);
    assert!(!b.is_active);
    assert_eq!(a.name, "Harbor Bridge");
    assert_eq!(b.name, "Mill");
    assert_eq!(a.votes, Some(VoteTally { ones: 0, twos: 1, threes: 0, other: 0 }));
    assert_eq!(b.votes, Some(VoteTally { ones: 2, twos: 0, threes: 0, other: 0 }));
}

#[test]
fn vote_tally_counts_each_rating() {
    let t = VoteTally::from_ratings(&vec![1, 1, 2, 3, 3, 3]);
    assert_eq!(t, VoteTally { ones: 2, twos: 1, threes: 3, other: 0 });
    assert_eq!(t.count(1), 2);
    assert_eq!(t.count(2), 1);
    assert_eq!(t.count(3), 3);
}

#[test]
fn vote_tally_of_nothing_is_zero() {
    let t = VoteTally::from_ratings(&vec![]);
    assert_eq!(t, VoteTally { ones: 0, twos: 0, threes: 0, other: 0 });
}

#[test]
fn vote_tally_puts_anomalies_aside() {
    let t = VoteTally::from_ratings(&vec![5, 1, 0, -2]);
    assert_eq!(t, VoteTally { ones: 1, twos: 0, threes: 0, other: 3 });
    assert_eq!(t.count(5), 3);
}

#[test]
fn dependency_strings() {
    assert_eq!(
        parse_dependencies("12$34$$abc$"),
        vec![
            DependencyRef::Lot(12),
            DependencyRef::Lot(34),
            DependencyRef::Unreadable("abc".to_string()),
        ]
    );
    assert_eq!(parse_dependencies(""), vec![]);
    assert_eq!(parse_dependencies("7"), vec![DependencyRef::Lot(7)]);
}

#[test]
fn unresolved_dependencies_are_reported_one_by_one() {
    let refs = vec![DependencyRef::Lot(3), DependencyRef::Lot(3), DependencyRef::Lot(8)];
    let found = vec![summary(3, "Three"), summary(3, "Shadow")];
    assert_eq!(
        resolve_dependencies(refs, &found),
        vec![
            DependencyEntry::Resolved(summary(3, "Three")),
            DependencyEntry::Resolved(summary(3, "Three")),
            DependencyEntry::Missing(8),
        ]
    );
}

#[test]
fn self_reference_does_not_loop() {
    let c = vec![Candidate { summary: summary(4, "Loop"), deps: "4$4".to_string() }];
    assert_eq!(dependents_of(4, c), vec![summary(4, "Loop")]);
}

#[test]
fn human_sizes() {
    assert_eq!(HumanSize::from_bytes(0).text(), "0.00 B");
    assert_eq!(HumanSize::from_bytes(1023).text(), "1023.00 B");
    assert_eq!(HumanSize::from_bytes(1024).text(), "1.00 KB");
    assert_eq!(HumanSize::from_bytes(1536).text(), "1.50 KB");
    assert_eq!(HumanSize::from_bytes(5 * 1048576 + 524288).text(), "5.50 MB");
    assert_eq!(HumanSize::from_bytes(3 * 1073741824).text(), "3.00 GB");
}

#[test]
fn human_sizes_round_half_up() {
    assert_eq!(HumanSize::from_bytes(2047).text(), "2.00 KB");
    assert_eq!(HumanSize::from_bytes(1029).text(), "1.00 KB");
    assert_eq!(HumanSize::from_bytes(1030).text(), "1.01 KB");
    assert_eq!(HumanSize::from_bytes(1024 + 512 - 6).text(), "1.49 KB");
    assert_eq!(HumanSize::from_bytes(1024 + 512 - 5).text(), "1.50 KB");
}

#[test]
fn rounding_keeps_the_unit_chosen_before_rounding() {
    assert_eq!(
        HumanSize::from_bytes(1048575),
        HumanSize { unit: SizeUnit::Kilobytes, whole: 1024, hundredths: 0 }
    );
    assert_eq!(HumanSize::from_bytes(1048575).text(), "1024.00 KB");
    assert_eq!(HumanSize::from_bytes(1048570).text(), "1023.99 KB");
    assert_eq!(HumanSize::from_bytes(1048576).text(), "1.00 MB");
    assert_eq!(HumanSize::from_bytes(u64::MAX).text(), "16777216.00 TB");
}

#[test]
fn unsigned_numbers() {
    assert_eq!(parse_u64("0"), Some(0));
    assert_eq!(parse_u64("+7"), Some(7));
    assert_eq!(parse_u64("007"), Some(7));
    assert_eq!(parse_u64("18446744073709551615"), Some(u64::MAX));
    assert_eq!(parse_u64("18446744073709551616"), None);
    assert_eq!(parse_u64("+"), None);
    assert_eq!(parse_u64(""), None);
    assert_eq!(parse_u64("1 2"), None);
    assert_eq!(parse_u64("-1"), None);
}

#[test]
fn comments_posted_together_keep_their_order() {
    let thread = vec![comment(7, 5), comment(3, 5), comment(9, 1), comment(1, 5)];
    let ids: Vec<u64> = in_posting_order(&thread).iter().map(|c| c.id).collect();
    assert_eq!(ids, vec![9, 7, 3, 1]);
}

#[test]
fn comments_come_in_posting_order() {
    let thread = vec![comment(1, 30), comment(2, 10), comment(3, 30), comment(4, 20), comment(5, 10)];
    let ordered = in_posting_order(&thread);
    let ids: Vec<u64> = ordered.iter().map(|c| c.id).collect();
    assert_eq!(ids, vec![2, 5, 4, 1, 3]);
    assert!(in_posting_order(&vec![]).is_empty());
}

#[test]
fn names_lose_surrounding_white_space() {
    let mut l = lot(1);
    l.lotname = "\u{3000}\tMill \u{a0}Road\u{2029}\n".to_string();
    l.version = "   ".to_string();
    let v = view(l, none(), None, nothing_fetched());
    assert_eq!(v.name, "Mill \u{a0}Road");
    assert_eq!(v.version, "");
    assert_eq!(lex_catalog::text::trim_text("  x y  "), "x y");
    assert_eq!(lex_catalog::text::trim_text("\u{200b}x"), "\u{200b}x");
}
