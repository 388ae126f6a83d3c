//! Who made each piece of background music, shown in the pause menu.
use vstd::prelude::*;
use crate::text::str_eq;
use vstd::string::StringExecFns;

verus! {

/// The credit of a piece of music.
#[derive(Debug, Clone)]
pub struct AssetCredit {
    pub authoer: &'static str,
    pub title: &'static str,
    pub appendix: &'static str,
}

/// The author, title and appendix credited for the music file with the
/// given name (without its extension); empty texts for a file that has no
/// credit. The ambient sound of the title screen's cave carries the credit
/// of the title music, since the pause menu cannot be opened on the title
/// screen.
pub open spec fn credit_of(stem: Seq<char>) -> (Seq<char>, Seq<char>, Seq<char>) {
    if stem == "茫漠たる庭"@ {
        ("のる"@, "茫漠たる庭"@, ""@)
    } else if stem == "水のしたたる洞窟"@ {
        ("のる"@, "茫漠たる庭"@, "(タイトル画面BGM)"@)
    } else if stem == "最果てのルージュ"@ {
        ("のる"@, "最果てのルージュ"@, ""@)
    } else if stem == "荒れ地の先へ"@ {
        ("松浦洋介"@, "荒れ地の先へ"@, ""@)
    } else if stem == "Tides_of_Adventure"@ {
        ("K’z Art Storage"@, "Tides of Adventure"@, ""@)
    } else if stem == "ダンジョンを踏破せし者"@ {
        ("こーち"@, "ダンジョンを踏破せし者"@, ""@)
    } else if stem == "森のいざない"@ {
        ("MATSU"@, "森のいざない"@, ""@)
    } else if stem == "迷宮"@ {
        ("オオヒラセイジ"@, "迷宮"@, ""@)
    } else if stem == "忘れられた神殿"@ {
        ("KK"@, "忘れられた神殿"@, ""@)
    } else if stem == "midnight-forest-184304"@ {
        ("Syouki Takahashi"@, "Midnight Forest"@, ""@)
    } else if stem == "悪魔との戦闘"@ {
        ("今川彰人オーケストラ"@, "悪魔との戦闘"@, ""@)
    } else if stem == "アクション・バトル"@ {
        ("田中芳典"@, "アクション・バトル"@, ""@)
    } else if stem == "Decisive_Battle"@ {
        ("Make a field Music"@, "Decisive Battle"@, ""@)
    } else if stem == "炎神の吐息"@ {
        ("こおろぎ"@, "炎神の吐息"@, ""@)
    } else if stem == "Sacred_Sacrifice"@ {
        ("ilodolly"@, "Sacred Sacrifice"@, ""@)
    } else if stem == "final-battle-trailer-music-217488"@ {
        ("Ihor_Koliako"@, "FINAL BATTLE"@, ""@)
    } else if stem == "human-vs-machine-dark-orchestral-cinematic-epic-action-271968"@ {
        ("Kulakovka"@, "Human vs Machine"@, ""@)
    } else {
        (""@, ""@, ""@)
    }
}

/// The credit for a music file, from the name of the file without its
/// extension; `None` where the asset has no path, which gets empty texts.
pub fn asset_to_credit(stem: Option<&str>) -> (r: AssetCredit)
    ensures
        (r.authoer@, r.title@, r.appendix@) == (match stem {
            Some(s) => credit_of(s@),
            None => (""@, ""@, ""@),
        }),
{
    match stem {
        None => AssetCredit { authoer: "", title: "", appendix: "" },
        Some(stem) => {
        if str_eq(stem, "茫漠たる庭") {
            AssetCredit { authoer: "のる", title: "茫漠たる庭", appendix: "" }
        } else if str_eq(stem, "水のしたたる洞窟") {
            AssetCredit { authoer: "のる", title: "茫漠たる庭", appendix: "(タイトル画面BGM)" }
        } else if str_eq(stem, "最果てのルージュ") {
            AssetCredit { authoer: "のる", title: "最果てのルージュ", appendix: "" }
        } else if str_eq(stem, "荒れ地の先へ") {
            AssetCredit { authoer: "松浦洋介", title: "荒れ地の先へ", appendix: "" }
        } else if str_eq(stem, "Tides_of_Adventure") {
            AssetCredit { authoer: "K’z Art Storage", title: "Tides of Adventure", appendix: "" }
        } else if str_eq(stem, "ダンジョンを踏破せし者") {
            AssetCredit { authoer: "こーち", title: "ダンジョンを踏破せし者", appendix: "" }
        } else if str_eq(stem, "森のいざない") {
            AssetCredit { authoer: "MATSU", title: "森のいざない", appendix: "" }
        } else if str_eq(stem, "迷宮") {
            AssetCredit { authoer: "オオヒラセイジ", title: "迷宮", appendix: "" }
        } else if str_eq(stem, "忘れられた神殿") {
            AssetCredit { authoer: "KK", title: "忘れられた神殿", appendix: "" }
        } else if str_eq(stem, "midnight-forest-184304") {
            AssetCredit { authoer: "Syouki Takahashi", title: "Midnight Forest", appendix: "" }
        } else if str_eq(stem, "悪魔との戦闘") {
            AssetCredit { authoer: "今川彰人オーケストラ", title: "悪魔との戦闘", appendix: "" }
        } else if str_eq(stem, "アクション・バトル") {
            AssetCredit { authoer: "田中芳典", title: "アクション・バトル", appendix: "" }
        } else if str_eq(stem, "Decisive_Battle") {
            AssetCredit { authoer: "Make a field Music", title: "Decisive Battle", appendix: "" }
        } else if str_eq(stem, "炎神の吐息") {
            AssetCredit { authoer: "こおろぎ", title: "炎神の吐息", appendix: "" }
        } else if str_eq(stem, "Sacred_Sacrifice") {
            AssetCredit { authoer: "ilodolly", title: "Sacred Sacrifice", appendix: "" }
        } else if str_eq(stem, "final-battle-trailer-music-217488") {
            AssetCredit { authoer: "Ihor_Koliako", title: "FINAL BATTLE", appendix: "" }
        } else if str_eq(stem, "human-vs-machine-dark-orchestral-cinematic-epic-action-271968") {
            AssetCredit { authoer: "Kulakovka", title: "Human vs Machine", appendix: "" }
        } else {
            AssetCredit { authoer: "", title: "", appendix: "" }
        }
        },
    }
}

/// The line shown under the pause menu for the music playing: a note, the
/// author, the title in corner brackets, and the appendix.
pub fn bgm_credit_text(credit: &AssetCredit) -> (r: String)
    ensures
        r@ == "♪ "@ + credit.authoer@ + "『"@ + credit.title@ + "』"@ + credit.appendix@,
{
    let mut s = "♪ ".to_string();
    s.append(credit.authoer);
    s.append("『");
    s.append(credit.title);
    s.append("』");
    s.append(credit.appendix);
    s
}


/// The music files the game plays, by name without extension.
pub open spec fn bgm_stems() -> Seq<Seq<char>> {
    seq![
        "茫漠たる庭"@,
        "水のしたたる洞窟"@,
        "最果てのルージュ"@,
        "荒れ地の先へ"@,
        "Tides_of_Adventure"@,
        "ダンジョンを踏破せし者"@,
        "森のいざない"@,
        "迷宮"@,
        "忘れられた神殿"@,
        "midnight-forest-184304"@,
        "悪魔との戦闘"@,
        "アクション・バトル"@,
        "Decisive_Battle"@,
        "炎神の吐息"@,
        "Sacred_Sacrifice"@,
        "final-battle-trailer-music-217488"@,
        "human-vs-machine-dark-orchestral-cinematic-epic-action-271968"@,
    ]
}

/// Every music file the game plays is credited with an author and a title,
/// and any other file gets no credit at all.
pub proof fn lemma_every_piece_is_credited(stem: Seq<char>)
    ensures
        bgm_stems().contains(stem) ==> credit_of(stem).0.len() > 0 && credit_of(stem).1.len() > 0,
        !bgm_stems().contains(stem) ==> credit_of(stem) == (""@, ""@, ""@),
{
    reveal_strlit("");
    reveal_strlit("(タイトル画面BGM)");
    reveal_strlit("Decisive Battle");
    reveal_strlit("Decisive_Battle");
    reveal_strlit("FINAL BATTLE");
    reveal_strlit("Human vs Machine");
    reveal_strlit("Ihor_Koliako");
    reveal_strlit("KK");
    reveal_strlit("Kulakovka");
    reveal_strlit("K’z Art Storage");
    reveal_strlit("MATSU");
    reveal_strlit("Make a field Music");
    reveal_strlit("Midnight Forest");
    reveal_strlit("Sacred Sacrifice");
    reveal_strlit("Sacred_Sacrifice");
    reveal_strlit("Syouki Takahashi");
    reveal_strlit("Tides of Adventure");
    reveal_strlit("Tides_of_Adventure");
    reveal_strlit("final-battle-trailer-music-217488");
    reveal_strlit("human-vs-machine-dark-orchestral-cinematic-epic-action-271968");
    reveal_strlit("ilodolly");
    reveal_strlit("midnight-forest-184304");
    reveal_strlit("こおろぎ");
    reveal_strlit("こーち");
    reveal_strlit("のる");
    reveal_strlit("アクション・バトル");
    reveal_strlit("オオヒラセイジ");
    reveal_strlit("ダンジョンを踏破せし者");
    reveal_strlit("今川彰人オーケストラ");
    reveal_strlit("忘れられた神殿");
    reveal_strlit("悪魔との戦闘");
    reveal_strlit("最果てのルージュ");
    reveal_strlit("松浦洋介");
    reveal_strlit("森のいざない");
    reveal_strlit("水のしたたる洞窟");
    reveal_strlit("炎神の吐息");
    reveal_strlit("田中芳典");
    reveal_strlit("茫漠たる庭");
    reveal_strlit("荒れ地の先へ");
    reveal_strlit("迷宮");
    if bgm_stems().contains(stem) {
        let i = choose|i: int| 0 <= i < bgm_stems().len() && bgm_stems()[i] == stem;
        assert(i == 0 ==> stem == "茫漠たる庭"@);
        assert(i == 1 ==> stem == "水のしたたる洞窟"@);
        assert(i == 2 ==> stem == "最果てのルージュ"@);
        assert(i == 3 ==> stem == "荒れ地の先へ"@);
        assert(i == 4 ==> stem == "Tides_of_Adventure"@);
        assert(i == 5 ==> stem == "ダンジョンを踏破せし者"@);
        assert(i == 6 ==> stem == "森のいざない"@);
        assert(i == 7 ==> stem == "迷宮"@);
        assert(i == 8 ==> stem == "忘れられた神殿"@);
        assert(i == 9 ==> stem == "midnight-forest-184304"@);
        assert(i == 10 ==> stem == "悪魔との戦闘"@);
        assert(i == 11 ==> stem == "アクション・バトル"@);
        assert(i == 12 ==> stem == "Decisive_Battle"@);
        assert(i == 13 ==> stem == "炎神の吐息"@);
        assert(i == 14 ==> stem == "Sacred_Sacrifice"@);
        assert(i == 15 ==> stem == "final-battle-trailer-music-217488"@);
        assert(i == 16 ==> stem == "human-vs-machine-dark-orchestral-cinematic-epic-action-271968"@);
    }
    if stem == "茫漠たる庭"@ {
        assert(bgm_stems()[0] == stem);
    }
    if stem == "水のしたたる洞窟"@ {
        assert(bgm_stems()[1] == stem);
    }
    if stem == "最果てのルージュ"@ {
        assert(bgm_stems()[2] == stem);
    }
    if stem == "荒れ地の先へ"@ {
        assert(bgm_stems()[3] == stem);
    }
    if stem == "Tides_of_Adventure"@ {
        assert(bgm_stems()[4] == stem);
    }
    if stem == "ダンジョンを踏破せし者"@ {
        assert(bgm_stems()[5] == stem);
    }
    if stem == "森のいざない"@ {
        assert(bgm_stems()[6] == stem);
    }
    if stem == "迷宮"@ {
        assert(bgm_stems()[7] == stem);
    }
    if stem == "忘れられた神殿"@ {
        assert(bgm_stems()[8] == stem);
    }
    if stem == "midnight-forest-184304"@ {
        assert(bgm_stems()[9] == stem);
    }
    if stem == "悪魔との戦闘"@ {
        assert(bgm_stems()[10] == stem);
    }
    if stem == "アクション・バトル"@ {
        assert(bgm_stems()[11] == stem);
    }
    if stem == "Decisive_Battle"@ {
        assert(bgm_stems()[12] == stem);
    }
    if stem == "炎神の吐息"@ {
        assert(bgm_stems()[13] == stem);
    }
    if stem == "Sacred_Sacrifice"@ {
        assert(bgm_stems()[14] == stem);
    }
    if stem == "final-battle-trailer-music-217488"@ {
        assert(bgm_stems()[15] == stem);
    }
    if stem == "human-vs-machine-dark-orchestral-cinematic-epic-action-271968"@ {
        assert(bgm_stems()[16] == stem);
    }
}


/// A file name read as a title: each underscore is a space.
pub open spec fn title_from_name(stem: Seq<char>) -> Seq<char> {
    stem.map_values(|c: char| if c == '_' { ' ' } else { c })
}

/// A piece is credited under the title its file is named after (with
/// underscores for spaces), unless the file name carries a catalogue
/// number (a hyphen) or the credit borrows another piece's title (it then
/// has an appendix saying so).
pub proof fn lemma_pieces_are_credited_by_name(i: int)
    requires
        0 <= i < bgm_stems().len(),
        !bgm_stems()[i].contains('-'),
        credit_of(bgm_stems()[i]).2.len() == 0,
    ensures
        credit_of(bgm_stems()[i]).1 == title_from_name(bgm_stems()[i]),
{
    reveal_strlit("");
    reveal_strlit("(タイトル画面BGM)");
    reveal_strlit("Decisive Battle");
    reveal_strlit("Decisive_Battle");
    reveal_strlit("FINAL BATTLE");
    reveal_strlit("Human vs Machine");
    reveal_strlit("Ihor_Koliako");
    reveal_strlit("KK");
    reveal_strlit("Kulakovka");
    reveal_strlit("K’z Art Storage");
    reveal_strlit("MATSU");
    reveal_strlit("Make a field Music");
    reveal_strlit("Midnight Forest");
    reveal_strlit("Sacred Sacrifice");
    reveal_strlit("Sacred_Sacrifice");
    reveal_strlit("Syouki Takahashi");
    reveal_strlit("Tides of Adventure");
    reveal_strlit("Tides_of_Adventure");
    reveal_strlit("final-battle-trailer-music-217488");
    reveal_strlit("human-vs-machine-dark-orchestral-cinematic-epic-action-271968");
    reveal_strlit("ilodolly");
    reveal_strlit("midnight-forest-184304");
    reveal_strlit("こおろぎ");
    reveal_strlit("こーち");
    reveal_strlit("のる");
    reveal_strlit("アクション・バトル");
    reveal_strlit("オオヒラセイジ");
    reveal_strlit("ダンジョンを踏破せし者");
    reveal_strlit("今川彰人オーケストラ");
    reveal_strlit("忘れられた神殿");
    reveal_strlit("悪魔との戦闘");
    reveal_strlit("最果てのルージュ");
    reveal_strlit("松浦洋介");
    reveal_strlit("森のいざない");
    reveal_strlit("水のしたたる洞窟");
    reveal_strlit("炎神の吐息");
    reveal_strlit("田中芳典");
    reveal_strlit("茫漠たる庭");
    reveal_strlit("荒れ地の先へ");
    reveal_strlit("迷宮");
    if i == 0 {
        assert(title_from_name(bgm_stems()[i]) =~= "茫漠たる庭"@);
    }
    if i == 2 {
        assert(title_from_name(bgm_stems()[i]) =~= "最果てのルージュ"@);
    }
    if i == 3 {
        assert(title_from_name(bgm_stems()[i]) =~= "荒れ地の先へ"@);
    }
    if i == 4 {
        assert(title_from_name(bgm_stems()[i]) =~= "Tides of Adventure"@);
    }
    if i == 5 {
        assert(title_from_name(bgm_stems()[i]) =~= "ダンジョンを踏破せし者"@);
    }
    if i == 6 {
        assert(title_from_name(bgm_stems()[i]) =~= "森のいざない"@);
    }
    if i == 7 {
        assert(title_from_name(bgm_stems()[i]) =~= "迷宮"@);
    }
    if i == 8 {
        assert(title_from_name(bgm_stems()[i]) =~= "忘れられた神殿"@);
    }
    if i == 9 {
        assert(bgm_stems()[i][8] == '-');
    }
    if i == 10 {
        assert(title_from_name(bgm_stems()[i]) =~= "悪魔との戦闘"@);
    }
    if i == 11 {
        assert(title_from_name(bgm_stems()[i]) =~= "アクション・バトル"@);
    }
    if i == 12 {
        assert(title_from_name(bgm_stems()[i]) =~= "Decisive Battle"@);
    }
    if i == 13 {
        assert(title_from_name(bgm_stems()[i]) =~= "炎神の吐息"@);
    }
    if i == 14 {
        assert(title_from_name(bgm_stems()[i]) =~= "Sacred Sacrifice"@);
    }
    if i == 15 {
        assert(bgm_stems()[i][5] == '-');
    }
    if i == 16 {
        assert(bgm_stems()[i][5] == '-');
    }
}

} // verus!
