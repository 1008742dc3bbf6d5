use dal_spirits::models::{
    Angel, AngelWording, AstralDress, AstralDressWording, Birthdate, BirthdateError, Class,
    Codename, DressNumber, Element, Gender, Medium, Month, Sephira, SephiraWording, Series, Spirit,
};
use dal_spirits::models::birthdate::day_from_text;
use dal_spirits::models::spirit::picture_address;
use dal_spirits::text::{decimal_string, str_contains, str_eq};
use dal_spirits::utils::{ordinal_number, CharFlags};

const REPO: &str = "https://raw.githubusercontent.com/n0k0m3/DateALiveData/master/res/basic";

fn spirit(firstname: &str, form: &str) -> Spirit {
    Spirit::new(firstname.to_string(), form.to_string())
}

fn sephira(wording: SephiraWording, name: &str, rest0: Option<&str>, rest1: Option<&str>) -> Sephira {
    Sephira {
        wording,
        name: name.to_string(),
        subtitle: None,
        rest0: rest0.map(str::to_string),
        rest1: rest1.map(str::to_string),
    }
}

#[test]
fn ordinal_number_by_last_digit() {
    assert_eq!(ordinal_number(0u8), "0th");
    assert_eq!(ordinal_number(1u8), "1st");
    assert_eq!(ordinal_number(2u8), "2nd");
    assert_eq!(ordinal_number(3u8), "3rd");
    assert_eq!(ordinal_number(4u8), "4th");
    assert_eq!(ordinal_number(10u16), "10th");
    assert_eq!(ordinal_number(21u16), "21st");
    assert_eq!(ordinal_number(22u16), "22nd");
    assert_eq!(ordinal_number(23u16), "23rd");
    assert_eq!(ordinal_number(100usize), "100th");
}

#[test]
fn ordinal_number_of_the_teens() {
    assert_eq!(ordinal_number(11u8), "11th");
    assert_eq!(ordinal_number(12u8), "12th");
    assert_eq!(ordinal_number(13u8), "13th");
    assert_eq!(ordinal_number(19u8), "19th");
    assert_eq!(ordinal_number(20u8), "20th");
    assert_eq!(ordinal_number(111u16), "111st");
}

#[test]
fn decimal_string_of_numbers() {
    assert_eq!(decimal_string(0), "0");
    assert_eq!(decimal_string(7), "7");
    assert_eq!(decimal_string(305), "305");
    assert_eq!(decimal_string(u64::MAX), "18446744073709551615");
}

#[test]
fn str_eq_compares_texts() {
    assert!(str_eq("", ""));
    assert!(str_eq("Tohka", "Tohka"));
    assert!(!str_eq("Tohka", "Tohko"));
    assert!(!str_eq("Tohka", "Tohk"));
    assert!(str_eq("é·", "é·"));
}

#[test]
fn str_contains_finds_runs() {
    assert!(str_contains("AST Wizard", "Wizard"));
    assert!(str_contains("Wizard", "Wizard"));
    assert!(str_contains("anything", ""));
    assert!(!str_contains("Wizar", "Wizard"));
    assert!(!str_contains("Spirit", "Wizard"));
    assert!(str_contains("WiWizard", "Wizard"));
}

#[test]
fn flags_are_read_letter_by_letter() {
    let media = CharFlags::<Medium>::parse("gla").unwrap();
    assert!(media.contains(Medium::MainLightNovels));
    assert!(media.contains(Medium::Anime));
    assert!(media.contains(Medium::Gacha));
    assert!(!media.contains(Medium::Movie));
    assert_eq!(media.to_vec(), vec![Medium::MainLightNovels, Medium::Anime, Medium::Gacha]);
    let none = CharFlags::<Medium>::parse("").unwrap();
    assert_eq!(none.to_vec(), Vec::<Medium>::new());
    assert_eq!(none, CharFlags::<Medium>::empty());
}

#[test]
fn flags_refuse_an_unknown_letter() {
    assert!(CharFlags::<Medium>::parse("lx").is_none());
    assert!(CharFlags::<Element>::parse("g").is_none());
    assert!(CharFlags::<Medium>::parse("L").is_none());
}

#[test]
fn flags_of_elements_come_by_ascending_bit() {
    let elements = CharFlags::<Element>::parse("vspmfltihd").unwrap();
    assert_eq!(
        elements.to_vec(),
        vec![
            Element::Physical,
            Element::Magic,
            Element::Fire,
            Element::Lightning,
            Element::Tempest,
            Element::Frost,
            Element::Holy,
            Element::Dark,
            Element::Spiritual,
            Element::Space,
        ]
    );
    let mut few = CharFlags::<Element>::empty();
    few.insert(Element::Dark);
    few.insert(Element::Fire);
    few.insert(Element::Dark);
    assert_eq!(few.to_vec(), vec![Element::Fire, Element::Dark]);
}

#[test]
fn series_is_collab_but_for_the_home_series() {
    assert!(!Series::DateALive.is_collab());
    assert!(!Series::DateABullet.is_collab());
    assert!(Series::Index.is_collab());
    assert!(Series::Neptunia.is_collab());
    assert!(Series::DanMachi.is_collab());
    assert!(Series::Bofuri.is_collab());
}

#[test]
fn series_come_in_display_order() {
    assert_eq!(
        Series::variants(),
        [
            Series::DateALive,
            Series::DateABullet,
            Series::Index,
            Series::Neptunia,
            Series::DanMachi,
            Series::Bofuri,
        ]
    );
    assert_eq!(Series::default(), Series::DateALive);
    assert_eq!(Series::DateALive.label(), "Date A Live");
    assert_eq!(Series::DateABullet.label(), "Date A Bullet");
    assert_eq!(Series::DateABullet.variant_name(), "DateABullet");
    assert_eq!(Series::Bofuri.label(), "Bofuri");
}

#[test]
fn labels_of_the_small_enums() {
    assert_eq!(Gender::default(), Gender::Female);
    assert_eq!(Gender::Female.label(), "female");
    assert_eq!(Gender::Male.label(), "male");
    assert_eq!(Medium::default(), Medium::MainLightNovels);
    assert_eq!(Medium::SpinoffLightNovels.label(), "Spin-off Light Novels");
    assert_eq!(Medium::SpinoffLightNovels.variant_name(), "SpinoffLightNovels");
    assert_eq!(Codename::default(), Codename::Codename);
    assert_eq!(Codename::GoddessTitle.label(), "Goddess Title");
    assert_eq!(SephiraWording::default(), SephiraWording::Sephira);
    assert_eq!(SephiraWording::Qlipha.label(), "Qlipha");
    assert_eq!(AngelWording::UnsignedAngel.label(), "Unsigned Angel");
    assert_eq!(AngelWording::EsperPower.label(), "Esper Power");
    assert_eq!(AstralDressWording::CrUnit.label(), "CR-Unit");
    assert_eq!(AstralDressWording::AstralDress.label(), "Astral Dress");
    assert_eq!(Class::AAA.label(), "AAA");
    assert_eq!(Element::Lightning.label(), "Lightning");
    assert_eq!(Month::September.label(), "September");
}

#[test]
fn codename_goes_by_the_series() {
    assert_eq!(Codename::from(Series::Neptunia), Codename::GoddessTitle);
    assert_eq!(Codename::from(Series::Bofuri), Codename::Username);
    assert_eq!(Codename::from(Series::DateALive), Codename::Codename);
    assert_eq!(Codename::from(Series::Index), Codename::Codename);
}

#[test]
fn sephira_link_by_wording() {
    let plain = sephira(SephiraWording::Sephira, "Malkuth", None, None);
    assert_eq!(plain.link(), "https://wikipedia.org/wiki/Malkuth");
    let paged = sephira(SephiraWording::Sephira, "Malkuth", Some("Malkuth_(Kabbalah)"), Some("x"));
    assert_eq!(paged.link(), "https://wikipedia.org/wiki/Malkuth_(Kabbalah)");
    let qlipha = sephira(SephiraWording::Qlipha, "Qemetiel", Some("Kether"), Some("Qliphoth"));
    assert_eq!(qlipha.link(), "https://wikipedia.org/wiki/Qliphoth");
    let bare = sephira(SephiraWording::Qlipha, "Qemetiel", Some("Kether"), None);
    assert_eq!(bare.link(), "https://wikipedia.org/wiki/Qemetiel");
    let land = sephira(SephiraWording::Land, "Lowee", Some("a/b"), Some("ignored"));
    assert_eq!(land.link(), "https://neptunia.fandom.com/wiki/Lowee");
}

#[test]
fn sephira_icon_by_wording() {
    let plain = sephira(SephiraWording::Sephira, "Malkuth", Some("page"), None);
    assert_eq!(plain.icon(), Some(format!("{REPO}/icon/equipType/Malkuth.png")));
    let qlipha = sephira(SephiraWording::Qlipha, "Qemetiel", Some("Kether"), None);
    assert_eq!(qlipha.icon(), Some(format!("{REPO}/icon/equipType/Kether.png")));
    assert_eq!(sephira(SephiraWording::Qlipha, "Qemetiel", None, Some("x")).icon(), None);
    let land = sephira(SephiraWording::Land, "Lowee", Some("a/b"), None);
    assert_eq!(
        land.icon(),
        Some("https://static.wikia.nocookie.net/neptunia/images/a/b/Lowee_Logo.png".to_string())
    );
    assert_eq!(sephira(SephiraWording::Land, "Lowee", None, None).icon(), None);
}

#[test]
fn sephira_guardian_by_name() {
    let portrait = |code: &str| Some(format!("{REPO}/icon/battleDialog/btlPortrait_{code}.png"));
    let of = |wording, name: &str, rest0: Option<&str>| sephira(wording, name, rest0, None).guardian();
    assert_eq!(of(SephiraWording::Sephira, "Chesed", None), portrait("40210_D1"));
    assert_eq!(of(SephiraWording::Sephira, "Geburah", None), portrait("40105_weixiao"));
    assert_eq!(of(SephiraWording::Sephira, "Tiphareth", None), portrait("40106_weixiao"));
    assert_eq!(of(SephiraWording::Sephira, "Kether", None), None);
    assert_eq!(of(SephiraWording::Qlipha, "x", Some("Kether")), portrait("40201_a1"));
    assert_eq!(of(SephiraWording::Qlipha, "x", Some("Chokhmah")), portrait("40202_a1"));
    assert_eq!(of(SephiraWording::Qlipha, "x", Some("Binah")), portrait("40203_a1"));
    assert_eq!(of(SephiraWording::Qlipha, "x", Some("Chesed")), portrait("40209_c1"));
    assert_eq!(of(SephiraWording::Qlipha, "x", Some("Geburah")), portrait("31001L_d1"));
    assert_eq!(of(SephiraWording::Qlipha, "x", Some("Tiphareth")), portrait("31101L_a1"));
    assert_eq!(of(SephiraWording::Qlipha, "Chesed", Some("Malkuth")), None);
    assert_eq!(of(SephiraWording::Qlipha, "Chesed", None), None);
    assert_eq!(of(SephiraWording::Land, "Planeptune", None), portrait("40214_b1"));
    assert_eq!(of(SephiraWording::Land, "Lastation", None), portrait("40220_weixiao"));
    assert_eq!(of(SephiraWording::Land, "Lowee", None), portrait("40216_a1"));
    assert_eq!(of(SephiraWording::Land, "Leanbox", None), portrait("40218_daiji"));
    assert_eq!(of(SephiraWording::Land, "Chesed", None), None);
}

#[test]
fn sephira_reads_its_fields() {
    let mut s = sephira(SephiraWording::Land, "Lowee", None, None);
    assert_eq!(*s.wording(), SephiraWording::Land);
    assert_eq!(s.name(), "Lowee");
    assert_eq!(s.subtitle(), None);
    s.subtitle = Some("White Heart".to_string());
    assert_eq!(s.subtitle(), Some("White Heart"));
}

fn angel(wording: AngelWording, name: &str, rest0: Option<&str>) -> Angel {
    Angel { wording, name: name.to_string(), subtitle: None, rest0: rest0.map(str::to_string) }
}

#[test]
fn angel_link_for_angels_and_demons_only() {
    assert_eq!(
        angel(AngelWording::Angel, "Sandalphon", None).link(),
        Some("https://wikipedia.org/wiki/Sandalphon".to_string())
    );
    assert_eq!(
        angel(AngelWording::Angel, "Sandalphon", Some("")).link(),
        Some("https://wikipedia.org/wiki/Sandalphon".to_string())
    );
    assert_eq!(
        angel(AngelWording::Demon, "Nahemah", Some("Naamah_(demon)")).link(),
        Some("https://wikipedia.org/wiki/Naamah_(demon)".to_string())
    );
    assert_eq!(angel(AngelWording::Weapon, "Sword", Some("Sword")).link(), None);
    assert_eq!(angel(AngelWording::UnsignedAngel, "x", None).link(), None);
    assert_eq!(angel(AngelWording::EsperPower, "x", None).link(), None);
    let mut a = angel(AngelWording::Angel, "Zadkiel", None);
    a.subtitle = Some("Freezing Puppet".to_string());
    assert_eq!(*a.wording(), AngelWording::Angel);
    assert_eq!(a.name(), "Zadkiel");
    assert_eq!(a.subtitle(), Some("Freezing Puppet"));
}

fn dress(wording: AstralDressWording, number: Option<DressNumber>) -> AstralDress {
    AstralDress { wording, name: "Adonai Melek".to_string(), number }
}

#[test]
fn astral_dress_subtitle_by_form() {
    let tenth = dress(AstralDressWording::AstralDress, Some(DressNumber::Rank(10)));
    assert_eq!(
        tenth.subtitle(&spirit("Tohka", "Princess")),
        Some("Spirit Dress of God's Authority, 10th".to_string())
    );
    assert_eq!(
        tenth.subtitle(&spirit("Mio", "Pseudo-Spirit")),
        Some("Incantation Spirit Dress, 10th".to_string())
    );
    assert_eq!(
        tenth.subtitle(&spirit("Hibiki", "Quasi-Spirit")),
        Some("Stranded Spirit Dress, 10th".to_string())
    );
    let word = dress(AstralDressWording::CrUnit, Some(DressNumber::Word("Zero".to_string())));
    assert_eq!(
        word.subtitle(&spirit("Tohka", "Princess")),
        Some("Spirit Dress of God's Authority, Zero".to_string())
    );
    let third = dress(AstralDressWording::AstralDress, Some(DressNumber::Rank(3)));
    assert_eq!(
        third.subtitle(&spirit("Kurumi", "Nightmare")),
        Some("Spirit Dress of God's Authority, 3rd".to_string())
    );
    assert_eq!(dress(AstralDressWording::AstralDress, None).subtitle(&spirit("a", "b")), None);
    assert_eq!(DressNumber::Rank(2).text(), "2nd");
    assert_eq!(DressNumber::Word("Ain".to_string()).text(), "Ain");
}

#[test]
fn astral_dress_link_but_for_quasi_spirits() {
    let d = dress(AstralDressWording::AstralDress, None);
    assert_eq!(
        d.link(&spirit("Tohka", "Princess")),
        Some("https://wikipedia.org/wiki/Names_of_God_in_Judaism".to_string())
    );
    assert_eq!(d.link(&spirit("Hibiki", "Quasi-Spirit")), None);
    let unit = dress(AstralDressWording::CrUnit, None);
    assert_eq!(unit.link(&spirit("Origami", "Wizard")), None);
    assert_eq!(*unit.wording(), AstralDressWording::CrUnit);
    assert_eq!(unit.name(), "Adonai Melek");
}

#[test]
fn class_icon_and_repeat() {
    let icon = |id: &str| format!("{REPO}/ui/common/hero/quality_{id}.png");
    assert_eq!(Class::D.icon(), (icon("d"), 1));
    assert_eq!(Class::C.icon(), (icon("c"), 1));
    assert_eq!(Class::B.icon(), (icon("b"), 1));
    assert_eq!(Class::A.icon(), (icon("a"), 1));
    assert_eq!(Class::AA.icon(), (icon("a"), 2));
    assert_eq!(Class::AAA.icon(), (icon("a"), 3));
    assert_eq!(Class::S.icon(), (icon("aaa"), 1));
    assert_eq!(Class::SS.icon(), (icon("aaa"), 2));
    assert_eq!(Class::SSS.icon(), (icon("aaa"), 3));
    assert_eq!(Class::Ex.icon(), (icon("sss"), 1));
}

#[test]
fn element_icon_by_number() {
    let icon = |id: u8| Some(format!("{REPO}/icon/element/{id}.png"));
    assert_eq!(Element::Physical.icon(), icon(5));
    assert_eq!(Element::Magic.icon(), icon(1));
    assert_eq!(Element::Fire.icon(), icon(2));
    assert_eq!(Element::Lightning.icon(), icon(3));
    assert_eq!(Element::Tempest.icon(), icon(4));
    assert_eq!(Element::Frost.icon(), icon(6));
    assert_eq!(Element::Holy.icon(), icon(7));
    assert_eq!(Element::Dark.icon(), icon(8));
    assert_eq!(Element::Spiritual.icon(), None);
    assert_eq!(Element::Space.icon(), None);
}

#[test]
fn spirit_defaults() {
    let s = spirit("Tohka", "Princess");
    assert_eq!(s.series(), Series::DateALive);
    assert_eq!(s.gender(), Gender::Female);
    assert!(!s.spoiler());
    assert_eq!(s.codename(), None);
    assert_eq!(s.icon(), None);
    assert_eq!(s.image(), Ok(None));
    assert_eq!(s.wiki_link(), None);
    assert_eq!(s.a11y(), "Princess Tohka");
    assert!(s.sephiras.is_empty() && s.angels.is_empty() && s.astraldresses.is_empty());
}

#[test]
fn spirit_reads_what_is_given() {
    let mut s = spirit("Neptune", "Purple Heart");
    s.series = Some(Series::Neptunia);
    s.gender = Some(Gender::Male);
    s.spoiler = Some(true);
    s.codename = Some("Purple Heart".to_string());
    s.icon_id = Some("110101".to_string());
    s.wiki_link = Some("Neptune".to_string());
    assert_eq!(s.series(), Series::Neptunia);
    assert_eq!(s.gender(), Gender::Male);
    assert!(s.spoiler());
    assert_eq!(s.codename(), Some((Codename::GoddessTitle, "Purple Heart")));
    assert_eq!(s.icon(), Some(format!("{REPO}/icon/hero/face/110101.png")));
    assert_eq!(s.wiki_link(), Some("https://date-a-live.fandom.com/wiki/Neptune".to_string()));
    assert_eq!(s.image(), Ok(Some(format!("{REPO}/icon/teampic/110101.png"))));
    s.series = Some(Series::Bofuri);
    assert_eq!(s.codename(), Some((Codename::Username, "Purple Heart")));
}

#[test]
fn spirit_form_url_keeps_what_a_parenthesis_holds() {
    assert_eq!(spirit("Tohka", "Princess").form_url().unwrap(), "Princess");
    assert_eq!(
        spirit("Tohka", "Princess (Astral Dress)").form_url().unwrap(),
        "Princess_AstralDress"
    );
    assert_eq!(
        spirit("Tohka", "Inferior Form (Reine)").form_url().unwrap(),
        "InferiorForm_Reine"
    );
    assert_eq!(spirit("Mio", "Pseudo-Spirit").form_url().unwrap(), "PseudoSpirit");
    assert_eq!(spirit("x", "a (b) c (d)").form_url().unwrap(), "a_bcd");
    assert_eq!(spirit("x", "").form_url().unwrap(), "");
    assert_eq!(spirit("x", "Élan 2 ()").form_url().unwrap(), "Élan2");
}

#[test]
fn spirit_image_by_kind_of_id() {
    let mut s = spirit("Tohka", "Princess");
    s.image_id = Some("110101".to_string());
    s.icon_id = Some("face".to_string());
    assert_eq!(s.image(), Ok(Some(format!("{REPO}/icon/teampic/110101.png"))));
    s.image_id = Some("a/b/Tohka".to_string());
    assert_eq!(
        s.image(),
        Ok(Some("https://static.wikia.nocookie.net/date-a-live/images/a/b/Tohka.png".to_string()))
    );
    s.image_id = Some("12a".to_string());
    assert_eq!(
        s.image(),
        Ok(Some("https://static.wikia.nocookie.net/date-a-live/images/12a.png".to_string()))
    );
    s.image_id = None;
    assert_eq!(s.image(), Ok(Some(format!("{REPO}/icon/teampic/face.png"))));
    assert_eq!(picture_address("7", true), format!("{REPO}/icon/teampic/7.png"));
    assert_eq!(
        picture_address("7", false),
        "https://static.wikia.nocookie.net/date-a-live/images/7.png"
    );
}

#[test]
fn month_from_name_letter_for_letter() {
    assert_eq!(Month::from_name("January"), Some(Month::January));
    assert_eq!(Month::from_name("December"), Some(Month::December));
    assert_eq!(Month::from_name("may"), None);
    assert_eq!(Month::from_name("Ma"), None);
    assert_eq!(Month::from_name(""), None);
    assert_eq!(Month::April.number(), 4);
    assert_eq!(Month::December.number(), 12);
}

#[test]
fn day_from_text_as_a_u8() {
    assert_eq!(day_from_text("10"), Some(10));
    assert_eq!(day_from_text("007"), Some(7));
    assert_eq!(day_from_text("+5"), Some(5));
    assert_eq!(day_from_text("255"), Some(255));
    assert_eq!(day_from_text("256"), None);
    assert_eq!(day_from_text("99999999999999999999"), None);
    assert_eq!(day_from_text(""), None);
    assert_eq!(day_from_text("+"), None);
    assert_eq!(day_from_text("-1"), None);
    assert_eq!(day_from_text("1 "), None);
    assert_eq!(day_from_text("١"), None);
    for text in ["0", "31", "255", "256", "+", "", "+12", "1_0", "0255", "300"] {
        assert_eq!(day_from_text(text), text.parse::<u8>().ok());
    }
}

#[test]
fn birthdate_from_str_reads_month_and_day() {
    assert_eq!(Birthdate::from_str("April 10"), Ok(Birthdate(Month::April, 10)));
    assert_eq!(Birthdate::from_str("born on June  3rd, maybe"), Ok(Birthdate(Month::June, 3)));
    assert_eq!(Birthdate::from_str("on 3, or June 4"), Err(BirthdateError::InvalidMonth));
    assert_eq!(Birthdate::from_str("June  3rd"), Ok(Birthdate(Month::June, 3)));
    assert_eq!(Birthdate::from_str("December 251"), Ok(Birthdate(Month::December, 25)));
}

#[test]
fn birthdate_from_str_errors() {
    assert_eq!(Birthdate::from_str(""), Err(BirthdateError::NotFound));
    assert_eq!(Birthdate::from_str("April"), Err(BirthdateError::NotFound));
    assert_eq!(Birthdate::from_str("10 April"), Err(BirthdateError::NotFound));
    assert_eq!(Birthdate::from_str("Apr 10"), Err(BirthdateError::InvalidMonth));
    assert_eq!(Birthdate::from_str("april 10"), Err(BirthdateError::InvalidMonth));
    assert_eq!(Birthdate::from_str("April ١٠"), Err(BirthdateError::InvalidDay));
    assert_eq!(BirthdateError::NotFound.message(), "could not find date");
    assert_eq!(BirthdateError::InvalidMonth.message(), "invalid month");
    assert_eq!(BirthdateError::InvalidDay.message(), "invalid day");
    assert_eq!(BirthdateError::Pattern.message(), "invalid date pattern");
}

#[test]
fn birthdate_from_groups_of_a_match() {
    let groups = |month: Option<&str>, day: Option<&str>| {
        vec![Some("whole".to_string()), month.map(str::to_string), day.map(str::to_string)]
    };
    assert_eq!(
        Birthdate::from_groups(&groups(Some("May"), Some("1"))),
        Ok(Birthdate(Month::May, 1))
    );
    assert_eq!(
        Birthdate::from_groups(&groups(Some("Mai"), Some("x"))),
        Err(BirthdateError::InvalidMonth)
    );
    assert_eq!(
        Birthdate::from_groups(&groups(Some("May"), Some("x"))),
        Err(BirthdateError::InvalidDay)
    );
    assert_eq!(Birthdate::from_groups(&groups(None, Some("1"))), Err(BirthdateError::NotFound));
    assert_eq!(Birthdate::from_groups(&groups(Some("May"), None)), Err(BirthdateError::NotFound));
    assert_eq!(Birthdate::from_groups(&vec![]), Err(BirthdateError::NotFound));
    assert_eq!(
        Birthdate::from_groups(&vec![None, Some("May".to_string())]),
        Err(BirthdateError::NotFound)
    );
}

#[test]
fn birthdate_in_words_and_in_order() {
    assert_eq!(Birthdate(Month::April, 10).to_text(), "April 10th");
    assert_eq!(Birthdate(Month::June, 1).to_text(), "June 1st");
    assert_eq!(Birthdate(Month::January, 22).to_text(), "January 22nd");
    assert!(Birthdate(Month::April, 10) < Birthdate(Month::May, 1));
    assert!(Birthdate(Month::April, 10) < Birthdate(Month::April, 11));
    assert!(Birthdate(Month::December, 1) > Birthdate(Month::January, 31));
    assert!(Birthdate(Month::April, 10) <= Birthdate(Month::April, 10));
    assert_eq!(
        Birthdate(Month::April, 10).partial_cmp(&Birthdate(Month::April, 10)),
        Some(std::cmp::Ordering::Equal)
    );
    assert_eq!(
        Birthdate(Month::March, 9).cmp(&Birthdate(Month::February, 28)),
        std::cmp::Ordering::Greater
    );
    let mut dates = vec![Birthdate(Month::May, 2), Birthdate(Month::April, 30), Birthdate(Month::May, 1)];
    dates.sort();
    assert_eq!(
        dates,
        vec![Birthdate(Month::April, 30), Birthdate(Month::May, 1), Birthdate(Month::May, 2)]
    );
}
