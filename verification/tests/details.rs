use dal_spirits::models::{
    Angel, AngelWording, AstralDress, AstralDressWording, Birthdate, Class, DressNumber, Element,
    Gender, Medium, Month, Sephira, SephiraWording, Series, Spirit,
};
use dal_spirits::utils::CharFlags;
use dal_spirits::views::details::{
    angel_row, attributes, dress_row, header, media_badge, media_badges, personal_info, sections,
    sephira_row, AttributeRow, Emblems, Header, MediaBadge, PersonalInfo, Sections,
};
use dal_spirits::views::resources::resources;
use dal_spirits::views::stats::{
    class_badge, element_badge, element_badges, gacha_stats, lore_classes, lore_stats, rank_badge,
    stat_label, stat_ratio, ElementBadge, LoreClasses, RankBadge, Ratio, Stat, StatLabel,
    GACHA_MAX, LORE_MAX,
};

const REPO: &str = "https://raw.githubusercontent.com/n0k0m3/DateALiveData/master/res/basic";

fn tohka() -> Spirit {
    let mut s = Spirit::new("Tohka".to_string(), "Princess".to_string());
    s.lastname = Some("Yatogami".to_string());
    s.codename = Some("Princess".to_string());
    s.media = CharFlags::parse("gal").unwrap();
    s.elements = CharFlags::parse("sp").unwrap();
    s.image_id = Some("110101".to_string());
    s.wiki_link = Some("Tohka_Yatogami".to_string());
    s.birthdate = Some(Birthdate(Month::April, 10));
    s.height = Some(155);
    s.weight = Some(47);
    s.bust = Some(84);
    s.waist = Some(58);
    s.hips = Some(83);
    s
}

#[test]
fn header_of_a_record() {
    assert_eq!(
        header(&tohka()),
        Ok(Header {
            form: "Princess".to_string(),
            firstname: "Tohka".to_string(),
            lastname: "Yatogami".to_string(),
            image: format!("{REPO}/icon/teampic/110101.png"),
            alt: "Princess Tohka full body".to_string(),
        })
    );
    let bare = Spirit::new("Maple".to_string(), "Great Shielder".to_string());
    assert_eq!(
        header(&bare),
        Ok(Header {
            form: "Great Shielder".to_string(),
            firstname: "Maple".to_string(),
            lastname: "".to_string(),
            image: "".to_string(),
            alt: "Great Shielder Maple full body".to_string(),
        })
    );
}

#[test]
fn sections_by_media_and_form() {
    assert_eq!(
        sections(&tohka()),
        Sections {
            wiki_link: Some("https://date-a-live.fandom.com/wiki/Tohka_Yatogami".to_string()),
            lore_stats: true,
            gacha_stats: true,
        }
    );
    let mut wizard = tohka();
    wizard.form = "AST Wizard".to_string();
    wizard.wiki_link = None;
    wizard.media = CharFlags::parse("l").unwrap();
    assert_eq!(sections(&wizard), Sections { wiki_link: None, lore_stats: false, gacha_stats: false });
    let mut game_only = tohka();
    game_only.media = CharFlags::parse("g").unwrap();
    assert!(!sections(&game_only).lore_stats);
    assert!(sections(&game_only).gacha_stats);
}

#[test]
fn media_badges_in_order_of_the_media() {
    assert_eq!(
        media_badges(&tohka()),
        vec![
            MediaBadge {
                class: "MainLightNovels",
                label: "Main Light Novels",
                title: "This character appears in the Main Light Novels".to_string(),
            },
            MediaBadge {
                class: "Anime",
                label: "Anime",
                title: "This character appears in the Anime".to_string(),
            },
            MediaBadge {
                class: "Gacha",
                label: "Gacha",
                title: "This character appears in the Gacha".to_string(),
            },
        ]
    );
    assert_eq!(media_badge(Medium::VisualNovels).class, "VisualNovels");
    assert_eq!(media_badges(&Spirit::new("a".to_string(), "b".to_string())), vec![]);
}

#[test]
fn attribute_rows_of_each_kind() {
    let sephira = Sephira {
        wording: SephiraWording::Sephira,
        name: "Chesed".to_string(),
        subtitle: Some("Kindness".to_string()),
        rest0: None,
        rest1: None,
    };
    assert_eq!(
        sephira_row(&sephira),
        AttributeRow {
            wording: "Sephira",
            name: "Chesed".to_string(),
            link: Some("https://wikipedia.org/wiki/Chesed".to_string()),
            subtitle: Some("Kindness".to_string()),
            emblems: Some(Emblems {
                icon: Some(format!("{REPO}/icon/equipType/Chesed.png")),
                guardian: Some(format!("{REPO}/icon/battleDialog/btlPortrait_40210_D1.png")),
            }),
        }
    );
    let angel = Angel {
        wording: AngelWording::Weapon,
        name: "Pendragon".to_string(),
        subtitle: None,
        rest0: None,
    };
    assert_eq!(
        angel_row(&angel),
        AttributeRow {
            wording: "Weapon",
            name: "Pendragon".to_string(),
            link: None,
            subtitle: None,
            emblems: None,
        }
    );
    let dress = AstralDress {
        wording: AstralDressWording::AstralDress,
        name: "Adonai Melek".to_string(),
        number: Some(DressNumber::Rank(10)),
    };
    assert_eq!(
        dress_row(&dress, &tohka()),
        AttributeRow {
            wording: "Astral Dress",
            name: "Adonai Melek".to_string(),
            link: Some("https://wikipedia.org/wiki/Names_of_God_in_Judaism".to_string()),
            subtitle: Some("Spirit Dress of God's Authority, 10th".to_string()),
            emblems: None,
        }
    );
}

#[test]
fn attributes_table_of_a_record() {
    let mut s = tohka();
    s.sephiras = vec![
        Sephira {
            wording: SephiraWording::Sephira,
            name: "Malkuth".to_string(),
            subtitle: None,
            rest0: None,
            rest1: None,
        },
        Sephira {
            wording: SephiraWording::Qlipha,
            name: "Qimranut".to_string(),
            subtitle: None,
            rest0: Some("Malkuth".to_string()),
            rest1: None,
        },
    ];
    s.angels = vec![Angel {
        wording: AngelWording::Angel,
        name: "Sandalphon".to_string(),
        subtitle: Some("Throne of Annihilation".to_string()),
        rest0: None,
    }];
    s.astraldresses = vec![AstralDress {
        wording: AstralDressWording::AstralDress,
        name: "Adonai Melek".to_string(),
        number: Some(DressNumber::Rank(10)),
    }];
    let table = attributes(&s);
    assert_eq!(table.codename, Some(("Codename", "Princess".to_string())));
    assert_eq!(table.sephiras, vec![sephira_row(&s.sephiras[0]), sephira_row(&s.sephiras[1])]);
    assert_eq!(table.angels, vec![angel_row(&s.angels[0])]);
    assert_eq!(table.astraldresses, vec![dress_row(&s.astraldresses[0], &s)]);
    s.series = Some(Series::Neptunia);
    assert_eq!(attributes(&s).codename, Some(("Goddess Title", "Princess".to_string())));
    let bare = attributes(&Spirit::new("a".to_string(), "b".to_string()));
    assert_eq!(bare.codename, None);
    assert!(bare.sephiras.is_empty() && bare.angels.is_empty() && bare.astraldresses.is_empty());
}

#[test]
fn personal_info_of_a_record() {
    assert_eq!(
        personal_info(&tohka()),
        PersonalInfo {
            birthdate: Some("April 10th".to_string()),
            height: Some("155 cm".to_string()),
            weight: Some("47 kg".to_string()),
            measurements: Some(Some("84·58·83 cm".to_string())),
        }
    );
    let mut partial = tohka();
    partial.waist = None;
    partial.birthdate = None;
    partial.height = None;
    partial.weight = None;
    assert_eq!(
        personal_info(&partial),
        PersonalInfo { birthdate: None, height: None, weight: None, measurements: Some(None) }
    );
    let mut male = tohka();
    male.gender = Some(Gender::Male);
    assert_eq!(personal_info(&male).measurements, None);
}

#[test]
fn stat_ratio_of_the_radar_chart() {
    assert_eq!(stat_ratio(50, 100), Ratio { numerator: 50, denominator: 100 });
    assert_eq!(stat_ratio(100, 100), Ratio { numerator: 100, denominator: 100 });
    assert_eq!(stat_ratio(0, 300), Ratio { numerator: 0, denominator: 300 });
    assert_eq!(stat_ratio(301, 300), Ratio { numerator: 1, denominator: 1 });
    assert_eq!(stat_ratio(0, 0), Ratio { numerator: 0, denominator: 0 });
    assert_eq!(stat_ratio(5, 0), Ratio { numerator: 1, denominator: 1 });
    let share = |r: Ratio| f64::from(r.numerator) / f64::from(r.denominator);
    assert_eq!(share(stat_ratio(50, 100)), 0.5);
    assert_eq!(share(stat_ratio(100, 100)), 1.0);
    assert_eq!(share(stat_ratio(250, 100)), 1.0);
    assert_eq!(LORE_MAX, 300);
    assert_eq!(GACHA_MAX, 100);
}

#[test]
fn stat_label_of_a_statistic() {
    assert_eq!(
        stat_label(&Stat { name: "Strength", abbrev: "STR", value: 230 }),
        StatLabel { title: "Strength", abbrev: "STR ".to_string(), value: "230".to_string() }
    );
}

#[test]
fn lore_stats_all_or_none() {
    let mut s = tohka();
    assert_eq!(lore_stats(&s), None);
    s.strength = Some(230);
    s.consistency = Some(202);
    s.spirit_power = Some(125);
    s.agility = Some(142);
    assert_eq!(lore_stats(&s), None);
    s.intelligence = Some(32);
    assert_eq!(
        lore_stats(&s),
        Some(vec![
            Stat { name: "Strength", abbrev: "STR", value: 230 },
            Stat { name: "Consistency", abbrev: "CST", value: 202 },
            Stat { name: "Spiritual Power", abbrev: "SPI", value: 125 },
            Stat { name: "Agility", abbrev: "AGI", value: 142 },
            Stat { name: "Intelligence", abbrev: "INT", value: 32 },
        ])
    );
}

#[test]
fn gacha_stats_all_or_none() {
    let mut s = tohka();
    s.attack = Some(90);
    s.combo = Some(80);
    s.support = Some(70);
    s.defense = Some(60);
    s.control = Some(50);
    assert_eq!(gacha_stats(&s), None);
    s.damage = Some(255);
    assert_eq!(
        gacha_stats(&s),
        Some(vec![
            Stat { name: "Attack", abbrev: "ATK", value: 90 },
            Stat { name: "Combination", abbrev: "CMB", value: 80 },
            Stat { name: "Support", abbrev: "SUP", value: 70 },
            Stat { name: "Defense", abbrev: "DEF", value: 60 },
            Stat { name: "Control", abbrev: "CTL", value: 50 },
            Stat { name: "Damage", abbrev: "DMG", value: 255 },
        ])
    );
    s.attack = None;
    assert_eq!(gacha_stats(&s), None);
}

#[test]
fn class_badges_of_the_lore() {
    let mut s = tohka();
    s.class = Some(Class::AAA);
    s.angel_class = Some(Class::Ex);
    assert_eq!(
        lore_classes(&s),
        LoreClasses {
            class: Some((format!("{REPO}/ui/common/hero/quality_a.png"), 3)),
            spacequake_class: None,
            angel_class: Some((format!("{REPO}/ui/common/hero/quality_sss.png"), 1)),
            astraldress_class: None,
        }
    );
    assert_eq!(class_badge(&None), None);
    assert_eq!(
        class_badge(&Some(Class::SS)),
        Some((format!("{REPO}/ui/common/hero/quality_aaa.png"), 2))
    );
}

#[test]
fn rank_and_elements_of_the_game() {
    let mut s = tohka();
    assert_eq!(rank_badge(&s), None);
    s.rank = Some(Class::SS);
    assert_eq!(
        rank_badge(&s),
        Some(RankBadge {
            label: "SS",
            icon: format!("{REPO}/ui/common/hero/quality_aaa.png"),
            repeat: 2,
        })
    );
    assert_eq!(
        element_badges(&s),
        vec![
            ElementBadge {
                label: "Physical",
                class: "element Physical".to_string(),
                icon: Some(format!("{REPO}/icon/element/5.png")),
                alt: "Physical element icon".to_string(),
            },
            ElementBadge {
                label: "Spiritual",
                class: "element Spiritual".to_string(),
                icon: None,
                alt: "Spiritual element icon".to_string(),
            },
        ]
    );
    assert_eq!(element_badge(Element::Dark).icon, Some(format!("{REPO}/icon/element/8.png")));
}

#[test]
fn resources_of_a_record_in_order() {
    let mut s = tohka();
    s.icon_id = Some("face".to_string());
    s.sephiras = vec![
        Sephira {
            wording: SephiraWording::Sephira,
            name: "Chesed".to_string(),
            subtitle: None,
            rest0: None,
            rest1: None,
        },
        Sephira {
            wording: SephiraWording::Qlipha,
            name: "Qimranut".to_string(),
            subtitle: None,
            rest0: None,
            rest1: None,
        },
        Sephira {
            wording: SephiraWording::Land,
            name: "Lowee".to_string(),
            subtitle: None,
            rest0: Some("x".to_string()),
            rest1: None,
        },
    ];
    s.class = Some(Class::AAA);
    s.astraldress_class = Some(Class::B);
    s.rank = Some(Class::SS);
    assert_eq!(
        resources(&s),
        Ok(vec![
            format!("{REPO}/icon/hero/face/face.png"),
            format!("{REPO}/icon/teampic/110101.png"),
            format!("{REPO}/icon/equipType/Chesed.png"),
            format!("{REPO}/icon/battleDialog/btlPortrait_40210_D1.png"),
            "https://static.wikia.nocookie.net/neptunia/images/x/Lowee_Logo.png".to_string(),
            format!("{REPO}/icon/battleDialog/btlPortrait_40216_a1.png"),
            format!("{REPO}/ui/common/hero/quality_a.png"),
            format!("{REPO}/ui/common/hero/quality_b.png"),
            format!("{REPO}/ui/common/hero/quality_aaa.png"),
            format!("{REPO}/icon/element/5.png"),
        ])
    );
    assert_eq!(resources(&Spirit::new("a".to_string(), "b".to_string())), Ok(vec![]));
}
