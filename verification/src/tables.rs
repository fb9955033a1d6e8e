//! The static lookup tables: map key to display name, map key to image
//! URL, and mode key to short abbreviation. The tables are immutable; a
//! missing key is valid and resolution falls back to the raw key (display
//! name, image URL) or to the empty string (abbreviation) - never an error.

use crate::strutil::str_eq;
use vstd::prelude::*;
use vstd::string::*;

verus! {

/// The view of an optional lookup result.
pub open spec fn opt_view(o: Option<String>) -> Option<Seq<char>> {
    match o {
        Some(s) => Some(s@),
        None => None,
    }
}

/// The display name a known map key resolves to.
pub open spec fn spec_display_name(key: Seq<char>) -> Option<Seq<char>> {
    if key == "MP_Amiens"@ {
        Some("Amiens"@)
    } else if key == "MP_Chateau"@ {
        Some("Ballroom Blitz"@)
    } else if key == "MP_Desert"@ {
        Some("Sinai Desert"@)
    } else if key == "MP_FaoFortress"@ {
        Some("Fao Fortress"@)
    } else if key == "MP_Forest"@ {
        Some("Argonne Forest"@)
    } else if key == "MP_ItalianCoast"@ {
        Some("Empire's Edge"@)
    } else if key == "MP_MountainFort"@ {
        Some("Monte Grappa"@)
    } else if key == "MP_Scar"@ {
        Some("St Quentin Scar"@)
    } else if key == "MP_Suez"@ {
        Some("Suez"@)
    } else if key == "MP_Giant"@ {
        Some("Giant's Shadow"@)
    } else if key == "MP_Fields"@ {
        Some("Soissons"@)
    } else if key == "MP_Graveyard"@ {
        Some("Rupture"@)
    } else if key == "MP_Underworld"@ {
        Some("Fort De Vaux"@)
    } else if key == "MP_Verdun"@ {
        Some("Verdun Heights"@)
    } else if key == "MP_ShovelTown"@ {
        Some("Prise de Tahure"@)
    } else if key == "MP_Trench"@ {
        Some("Nivelle Nights"@)
    } else if key == "MP_Bridge"@ {
        Some("Brusilov Keep"@)
    } else if key == "MP_Islands"@ {
        Some("Albion"@)
    } else if key == "MP_Ravines"@ {
        Some("Łupków Pass"@)
    } else if key == "MP_Tsaritsyn"@ {
        Some("Tsaritsyn"@)
    } else if key == "MP_Valley"@ {
        Some("Galicia"@)
    } else if key == "MP_Volga"@ {
        Some("Volga River"@)
    } else if key == "MP_Beachhead"@ {
        Some("Cape Helles"@)
    } else if key == "MP_Harbor"@ {
        Some("Zeebrugge"@)
    } else if key == "MP_Naval"@ {
        Some("Heligoland Bight"@)
    } else if key == "MP_Ridge"@ {
        Some("Achi Baba"@)
    } else if key == "MP_Alps"@ {
        Some("Razor's Edge"@)
    } else if key == "MP_Blitz"@ {
        Some("London Calling"@)
    } else if key == "MP_Hell"@ {
        Some("Passchendaele"@)
    } else if key == "MP_London"@ {
        Some("London Calling: Scourge"@)
    } else if key == "MP_Offensive"@ {
        Some("River Somme"@)
    } else if key == "MP_River"@ {
        Some("Caporetto"@)
    } else if key == "MP_ArcticFjell"@ {
        Some("Fjell 652"@)
    } else if key == "MP_ArcticFjord"@ {
        Some("Narvik"@)
    } else if key == "MP_Arras"@ {
        Some("Arras"@)
    } else if key == "MP_Devastation"@ {
        Some("Devastation"@)
    } else if key == "MP_Escaut"@ {
        Some("twisted steel"@)
    } else if key == "MP_Foxhunt"@ {
        Some("Aerodrome"@)
    } else if key == "MP_Halfaya"@ {
        Some("Hamada"@)
    } else if key == "MP_Rotterdam"@ {
        Some("Rotterdam"@)
    } else if key == "MP_Hannut"@ {
        Some("Panzerstorm"@)
    } else if key == "MP_Crete"@ {
        Some("Mercury"@)
    } else if key == "MP_Kalamas"@ {
        Some("Marita"@)
    } else if key == "MP_Provence"@ {
        Some("Provence"@)
    } else if key == "MP_SandAndSea"@ {
        Some("Al sudan"@)
    } else if key == "MP_Bunker"@ {
        Some("Operation Underground"@)
    } else if key == "MP_IwoJima"@ {
        Some("Iwo jima"@)
    } else if key == "MP_TropicIslands"@ {
        Some("Pacific storm"@)
    } else if key == "MP_WakeIsland"@ {
        Some("Wake island"@)
    } else if key == "MP_Jungle"@ {
        Some("Solomon islands"@)
    } else if key == "MP_Libya"@ {
        Some("Al marj encampment"@)
    } else if key == "MP_Norway"@ {
        Some("lofoten islands"@)
    } else if key == "DK_Norway"@ {
        Some("Halvoy"@)
    } else if key == "MP_Escaut_US"@ {
        Some("Twisted Steel US"@)
    } else if key == "MP_Hannut_US"@ {
        Some("Panzerstorm US"@)
    } else if key == "MP_GOps_Chapter2_Arras"@ {
        Some("Arras (Chapter 2)"@)
    } else if key == "MP_WE_Fortress_Devastation"@ {
        Some("Devastation (Fortress)"@)
    } else if key == "MP_WE_Fortress_Halfaya"@ {
        Some("Hamada (Fortress)"@)
    } else if key == "MP_WE_Grind_ArcticFjord"@ {
        Some("Narvik (Grind)"@)
    } else if key == "MP_WE_Grind_Devastation"@ {
        Some("Devastation (Grind)"@)
    } else if key == "MP_WE_Grind_Escaut"@ {
        Some("Twisted Steel (Grind)"@)
    } else if key == "MP_WE_Grind_Rotterdam"@ {
        Some("Rotterdam (Grind)"@)
    } else {
        None
    }
}

/// Looks a map key up in the display-name table.
pub fn display_name(key: &str) -> (r: Option<String>)
    ensures
        opt_view(r) == spec_display_name(key@),
{
    if str_eq(key, "MP_Amiens") {
        return Some("Amiens".to_owned());
    }
    if str_eq(key, "MP_Chateau") {
        return Some("Ballroom Blitz".to_owned());
    }
    if str_eq(key, "MP_Desert") {
        return Some("Sinai Desert".to_owned());
    }
    if str_eq(key, "MP_FaoFortress") {
        return Some("Fao Fortress".to_owned());
    }
    if str_eq(key, "MP_Forest") {
        return Some("Argonne Forest".to_owned());
    }
    if str_eq(key, "MP_ItalianCoast") {
        return Some("Empire's Edge".to_owned());
    }
    if str_eq(key, "MP_MountainFort") {
        return Some("Monte Grappa".to_owned());
    }
    if str_eq(key, "MP_Scar") {
        return Some("St Quentin Scar".to_owned());
    }
    if str_eq(key, "MP_Suez") {
        return Some("Suez".to_owned());
    }
    if str_eq(key, "MP_Giant") {
        return Some("Giant's Shadow".to_owned());
    }
    if str_eq(key, "MP_Fields") {
        return Some("Soissons".to_owned());
    }
    if str_eq(key, "MP_Graveyard") {
        return Some("Rupture".to_owned());
    }
    if str_eq(key, "MP_Underworld") {
        return Some("Fort De Vaux".to_owned());
    }
    if str_eq(key, "MP_Verdun") {
        return Some("Verdun Heights".to_owned());
    }
    if str_eq(key, "MP_ShovelTown") {
        return Some("Prise de Tahure".to_owned());
    }
    if str_eq(key, "MP_Trench") {
        return Some("Nivelle Nights".to_owned());
    }
    if str_eq(key, "MP_Bridge") {
        return Some("Brusilov Keep".to_owned());
    }
    if str_eq(key, "MP_Islands") {
        return Some("Albion".to_owned());
    }
    if str_eq(key, "MP_Ravines") {
        return Some("Łupków Pass".to_owned());
    }
    if str_eq(key, "MP_Tsaritsyn") {
        return Some("Tsaritsyn".to_owned());
    }
    if str_eq(key, "MP_Valley") {
        return Some("Galicia".to_owned());
    }
    if str_eq(key, "MP_Volga") {
        return Some("Volga River".to_owned());
    }
    if str_eq(key, "MP_Beachhead") {
        return Some("Cape Helles".to_owned());
    }
    if str_eq(key, "MP_Harbor") {
        return Some("Zeebrugge".to_owned());
    }
    if str_eq(key, "MP_Naval") {
        return Some("Heligoland Bight".to_owned());
    }
    if str_eq(key, "MP_Ridge") {
        return Some("Achi Baba".to_owned());
    }
    if str_eq(key, "MP_Alps") {
        return Some("Razor's Edge".to_owned());
    }
    if str_eq(key, "MP_Blitz") {
        return Some("London Calling".to_owned());
    }
    if str_eq(key, "MP_Hell") {
        return Some("Passchendaele".to_owned());
    }
    if str_eq(key, "MP_London") {
        return Some("London Calling: Scourge".to_owned());
    }
    if str_eq(key, "MP_Offensive") {
        return Some("River Somme".to_owned());
    }
    if str_eq(key, "MP_River") {
        return Some("Caporetto".to_owned());
    }
    if str_eq(key, "MP_ArcticFjell") {
        return Some("Fjell 652".to_owned());
    }
    if str_eq(key, "MP_ArcticFjord") {
        return Some("Narvik".to_owned());
    }
    if str_eq(key, "MP_Arras") {
        return Some("Arras".to_owned());
    }
    if str_eq(key, "MP_Devastation") {
        return Some("Devastation".to_owned());
    }
    if str_eq(key, "MP_Escaut") {
        return Some("twisted steel".to_owned());
    }
    if str_eq(key, "MP_Foxhunt") {
        return Some("Aerodrome".to_owned());
    }
    if str_eq(key, "MP_Halfaya") {
        return Some("Hamada".to_owned());
    }
    if str_eq(key, "MP_Rotterdam") {
        return Some("Rotterdam".to_owned());
    }
    if str_eq(key, "MP_Hannut") {
        return Some("Panzerstorm".to_owned());
    }
    if str_eq(key, "MP_Crete") {
        return Some("Mercury".to_owned());
    }
    if str_eq(key, "MP_Kalamas") {
        return Some("Marita".to_owned());
    }
    if str_eq(key, "MP_Provence") {
        return Some("Provence".to_owned());
    }
    if str_eq(key, "MP_SandAndSea") {
        return Some("Al sudan".to_owned());
    }
    if str_eq(key, "MP_Bunker") {
        return Some("Operation Underground".to_owned());
    }
    if str_eq(key, "MP_IwoJima") {
        return Some("Iwo jima".to_owned());
    }
    if str_eq(key, "MP_TropicIslands") {
        return Some("Pacific storm".to_owned());
    }
    if str_eq(key, "MP_WakeIsland") {
        return Some("Wake island".to_owned());
    }
    if str_eq(key, "MP_Jungle") {
        return Some("Solomon islands".to_owned());
    }
    if str_eq(key, "MP_Libya") {
        return Some("Al marj encampment".to_owned());
    }
    if str_eq(key, "MP_Norway") {
        return Some("lofoten islands".to_owned());
    }
    if str_eq(key, "DK_Norway") {
        return Some("Halvoy".to_owned());
    }
    if str_eq(key, "MP_Escaut_US") {
        return Some("Twisted Steel US".to_owned());
    }
    if str_eq(key, "MP_Hannut_US") {
        return Some("Panzerstorm US".to_owned());
    }
    if str_eq(key, "MP_GOps_Chapter2_Arras") {
        return Some("Arras (Chapter 2)".to_owned());
    }
    if str_eq(key, "MP_WE_Fortress_Devastation") {
        return Some("Devastation (Fortress)".to_owned());
    }
    if str_eq(key, "MP_WE_Fortress_Halfaya") {
        return Some("Hamada (Fortress)".to_owned());
    }
    if str_eq(key, "MP_WE_Grind_ArcticFjord") {
        return Some("Narvik (Grind)".to_owned());
    }
    if str_eq(key, "MP_WE_Grind_Devastation") {
        return Some("Devastation (Grind)".to_owned());
    }
    if str_eq(key, "MP_WE_Grind_Escaut") {
        return Some("Twisted Steel (Grind)".to_owned());
    }
    if str_eq(key, "MP_WE_Grind_Rotterdam") {
        return Some("Rotterdam (Grind)".to_owned());
    }
    None
}

/// The map-art image URL a known map key resolves to.
pub open spec fn spec_image_url(key: Seq<char>) -> Option<Seq<char>> {
    if key == "MP_Amiens"@ {
        Some("https://cdn.gametools.network/maps/bf1/MP_Amiens_LandscapeLarge-e195589d.jpg"@)
    } else if key == "MP_Chateau"@ {
        Some("https://cdn.gametools.network/maps/bf1/MP_Chateau_LandscapeLarge-244d5987.jpg"@)
    } else if key == "MP_Desert"@ {
        Some("https://cdn.gametools.network/maps/bf1/MP_Desert_LandscapeLarge-d8f749da.jpg"@)
    } else if key == "MP_FaoFortress"@ {
        Some("https://cdn.gametools.network/maps/bf1/MP_FaoFortress_LandscapeLarge-cad1748e.jpg"@)
    } else if key == "MP_Forest"@ {
        Some("https://cdn.gametools.network/maps/bf1/MP_Forest_LandscapeLarge-dfbbe910.jpg"@)
    } else if key == "MP_ItalianCoast"@ {
        Some("https://cdn.gametools.network/maps/bf1/MP_ItalianCoast_LandscapeLarge-1503eec7.jpg"@)
    } else if key == "MP_MountainFort"@ {
        Some("https://cdn.gametools.network/maps/bf1/MP_MountainFort_LandscapeLarge-8a517533.jpg"@)
    } else if key == "MP_Scar"@ {
        Some("https://cdn.gametools.network/maps/bf1/MP_Scar_LandscapeLarge-ee25fbd6.jpg"@)
    } else if key == "MP_Suez"@ {
        Some("https://cdn.gametools.network/maps/bf1/MP_Suez_LandscapeLarge-f630fc76.jpg"@)
    } else if key == "MP_Giant"@ {
        Some("https://cdn.gametools.network/maps/bf1/MP_Giant_LandscapeLarge-dd0b93ef.jpg"@)
    } else if key == "MP_Fields"@ {
        Some("https://cdn.gametools.network/maps/bf1/MP_Fields_LandscapeLarge-5f53ddc4.jpg"@)
    } else if key == "MP_Graveyard"@ {
        Some("https://cdn.gametools.network/maps/bf1/MP_Graveyard_LandscapeLarge-bd1012e6.jpg"@)
    } else if key == "MP_Underworld"@ {
        Some("https://cdn.gametools.network/maps/bf1/MP_Underworld_LandscapeLarge-b6c5c7e7.jpg"@)
    } else if key == "MP_Verdun"@ {
        Some("https://cdn.gametools.network/maps/bf1/MP_Verdun_LandscapeLarge-1a364063.jpg"@)
    } else if key == "MP_ShovelTown"@ {
        Some("https://cdn.gametools.network/maps/bf1/MP_Shoveltown_LandscapeLarge-d0aa5920.jpg"@)
    } else if key == "MP_Trench"@ {
        Some("https://cdn.gametools.network/maps/bf1/MP_Trench_LandscapeLarge-dbd1248f.jpg"@)
    } else if key == "MP_Bridge"@ {
        Some("https://cdn.gametools.network/maps/bf1/MP_Bridge_LandscapeLarge-5b7f1b62.jpg"@)
    } else if key == "MP_Islands"@ {
        Some("https://cdn.gametools.network/maps/bf1/MP_Islands_LandscapeLarge-c9d8272b.jpg"@)
    } else if key == "MP_Ravines"@ {
        Some("https://cdn.gametools.network/maps/bf1/MP_Ravines_LandscapeLarge-1fe0d3f6.jpg"@)
    } else if key == "MP_Tsaritsyn"@ {
        Some("https://cdn.gametools.network/maps/bf1/MP_Tsaritsyn_LandscapeLarge-2dbd3bf5.jpg"@)
    } else if key == "MP_Valley"@ {
        Some("https://cdn.gametools.network/maps/bf1/MP_Valley_LandscapeLarge-8dc1c7ca.jpg"@)
    } else if key == "MP_Volga"@ {
        Some("https://cdn.gametools.network/maps/bf1/MP_Volga_LandscapeLarge-6ac49c25.jpg"@)
    } else if key == "MP_Beachhead"@ {
        Some("https://cdn.gametools.network/maps/bf1/MP_Beachhead_LandscapeLarge-5a13c655.jpg"@)
    } else if key == "MP_Harbor"@ {
        Some("https://cdn.gametools.network/maps/bf1/MP_Harbor_LandscapeLarge-d382c7ea.jpg"@)
    } else if key == "MP_Naval"@ {
        Some("https://cdn.gametools.network/maps/bf1/MP_Naval_LandscapeLarge-dc2e8daf.jpg"@)
    } else if key == "MP_Ridge"@ {
        Some("https://cdn.gametools.network/maps/bf1/MP_Ridge_LandscapeLarge-8c057a19.jpg"@)
    } else if key == "MP_Alps"@ {
        Some("https://cdn.gametools.network/maps/bf1/MP_Alps_LandscapeLarge-7ab30e3e.jpg"@)
    } else if key == "MP_Blitz"@ {
        Some("https://cdn.gametools.network/maps/bf1/MP_Blitz_LandscapeLarge-5e26212f.jpg"@)
    } else if key == "MP_Hell"@ {
        Some("https://cdn.gametools.network/maps/bf1/MP_Hell_LandscapeLarge-7176911c.jpg"@)
    } else if key == "MP_London"@ {
        Some("https://cdn.gametools.network/maps/bf1/MP_London_LandscapeLarge-0b51fe46.jpg"@)
    } else if key == "MP_Offensive"@ {
        Some("https://cdn.gametools.network/maps/bf1/MP_Offensive_LandscapeLarge-6dabdea3.jpg"@)
    } else if key == "MP_River"@ {
        Some("https://cdn.gametools.network/maps/bf1/MP_River_LandscapeLarge-21443ae9.jpg"@)
    } else if key == "MP_ArcticFjell"@ {
        Some("https://cdn.gametools.network/maps/bfv/1080p_MP_ArcticFjell-df3c1290.jpg"@)
    } else if key == "MP_ArcticFjord"@ {
        Some("https://cdn.gametools.network/maps/bfv/1080p_MP_ArcticFjord-7ba29138.jpg"@)
    } else if key == "MP_Arras"@ {
        Some("https://cdn.gametools.network/maps/bfv/1080p_MP_Arras-4b610505.jpg"@)
    } else if key == "MP_Devastation"@ {
        Some("https://cdn.gametools.network/maps/bfv/1080p_MP_Devastation-623dea60.jpg"@)
    } else if key == "MP_Escaut"@ {
        Some("https://cdn.gametools.network/maps/bfv/1080p_MP_Escaut-9764d1fb.jpg"@)
    } else if key == "MP_Foxhunt"@ {
        Some("https://cdn.gametools.network/maps/bfv/1080p_MP_AfricanFox-8ad380a5.jpg"@)
    } else if key == "MP_Halfaya"@ {
        Some("https://cdn.gametools.network/maps/bfv/1080p_MP_AfricanHalfaya-31165f9b.jpg"@)
    } else if key == "MP_Rotterdam"@ {
        Some("https://cdn.gametools.network/maps/bfv/1080p_MP_Rotterdam-55632240.jpg"@)
    } else if key == "MP_Hannut"@ {
        Some("https://cdn.gametools.network/maps/bfv/1080p_MP_Hannut-ebbe7197.jpg"@)
    } else if key == "MP_Crete"@ {
        Some("https://cdn.gametools.network/maps/bfv/1080p_MP_Crete-304a202d.jpg"@)
    } else if key == "MP_Kalamas"@ {
        Some("https://cdn.gametools.network/maps/bfv/1080p_MP_Kalamas-c64c8451.jpg"@)
    } else if key == "MP_Provence"@ {
        Some("https://cdn.gametools.network/maps/bfv/1080p_MP_ProvenceXL-a950ad3e.jpg"@)
    } else if key == "MP_SandAndSea"@ {
        Some("https://cdn.gametools.network/maps/bfv/1080p_MP_SandAndSea-f071e6f7.jpg"@)
    } else if key == "MP_Bunker"@ {
        Some("https://cdn.gametools.network/maps/bfv/1080p_MP_Bunker-7b518876.jpg"@)
    } else if key == "MP_IwoJima"@ {
        Some("https://cdn.gametools.network/maps/bfv/1080p_MP_IwoJima-760850fc.jpg"@)
    } else if key == "MP_TropicIslands"@ {
        Some("https://cdn.gametools.network/maps/bfv/1080p_MP_TropicIslands-9e0a41c3.jpg"@)
    } else if key == "MP_WakeIsland"@ {
        Some("https://cdn.gametools.network/maps/bfv/1080p_MP_WakeIsland-3238b455.jpg"@)
    } else if key == "MP_Jungle"@ {
        Some("https://cdn.gametools.network/maps/bfv/1080p_MP_Jungle-714218ce.jpg"@)
    } else if key == "MP_Libya"@ {
        Some("https://cdn.gametools.network/maps/bfv/1080p_MP_Libya-bd54b090.jpg"@)
    } else if key == "MP_Norway"@ {
        Some("https://cdn.gametools.network/maps/bfv/1080p_MP_Norway-7d6d6300.jpg"@)
    } else if key == "DK_Norway"@ {
        Some("https://cdn.gametools.network/maps/bfv/1080p_MP_Norway-7d6d6300.jpg"@)
    } else if key == "MP_Escaut_US"@ {
        Some("https://cdn.gametools.network/maps/bfv/1080p_MP_Escaut-9764d1fb.jpg"@)
    } else if key == "MP_Hannut_US"@ {
        Some("https://cdn.gametools.network/maps/bfv/1080p_MP_Hannut-ebbe7197.jpg"@)
    } else if key == "MP_GOps_Chapter2_Arras"@ {
        Some("https://cdn.gametools.network/maps/bfv/1080p_MP_Arras-4b610505.jpg"@)
    } else if key == "MP_WE_Fortress_Devastation"@ {
        Some("https://cdn.gametools.network/maps/bfv/1080p_MP_Devastation-623dea60.jpg"@)
    } else if key == "MP_WE_Fortress_Halfaya"@ {
        Some("https://cdn.gametools.network/maps/bfv/1080p_MP_AfricanHalfaya-31165f9b.jpg"@)
    } else if key == "MP_WE_Grind_ArcticFjord"@ {
        Some("https://cdn.gametools.network/maps/bfv/1080p_MP_ArcticFjord-7ba29138.jpg"@)
    } else if key == "MP_WE_Grind_Devastation"@ {
        Some("https://cdn.gametools.network/maps/bfv/1080p_MP_Devastation-623dea60.jpg"@)
    } else if key == "MP_WE_Grind_Escaut"@ {
        Some("https://cdn.gametools.network/maps/bfv/1080p_MP_Escaut-9764d1fb.jpg"@)
    } else if key == "MP_WE_Grind_Rotterdam"@ {
        Some("https://cdn.gametools.network/maps/bfv/1080p_MP_Rotterdam-55632240.jpg"@)
    } else {
        None
    }
}

/// Looks a map key up in the image-URL table.
pub fn image_url(key: &str) -> (r: Option<String>)
    ensures
        opt_view(r) == spec_image_url(key@),
{
    if str_eq(key, "MP_Amiens") {
        return Some("https://cdn.gametools.network/maps/bf1/MP_Amiens_LandscapeLarge-e195589d.jpg".to_owned());
    }
    if str_eq(key, "MP_Chateau") {
        return Some("https://cdn.gametools.network/maps/bf1/MP_Chateau_LandscapeLarge-244d5987.jpg".to_owned());
    }
    if str_eq(key, "MP_Desert") {
        return Some("https://cdn.gametools.network/maps/bf1/MP_Desert_LandscapeLarge-d8f749da.jpg".to_owned());
    }
    if str_eq(key, "MP_FaoFortress") {
        return Some("https://cdn.gametools.network/maps/bf1/MP_FaoFortress_LandscapeLarge-cad1748e.jpg".to_owned());
    }
    if str_eq(key, "MP_Forest") {
        return Some("https://cdn.gametools.network/maps/bf1/MP_Forest_LandscapeLarge-dfbbe910.jpg".to_owned());
    }
    if str_eq(key, "MP_ItalianCoast") {
        return Some("https://cdn.gametools.network/maps/bf1/MP_ItalianCoast_LandscapeLarge-1503eec7.jpg".to_owned());
    }
    if str_eq(key, "MP_MountainFort") {
        return Some("https://cdn.gametools.network/maps/bf1/MP_MountainFort_LandscapeLarge-8a517533.jpg".to_owned());
    }
    if str_eq(key, "MP_Scar") {
        return Some("https://cdn.gametools.network/maps/bf1/MP_Scar_LandscapeLarge-ee25fbd6.jpg".to_owned());
    }
    if str_eq(key, "MP_Suez") {
        return Some("https://cdn.gametools.network/maps/bf1/MP_Suez_LandscapeLarge-f630fc76.jpg".to_owned());
    }
    if str_eq(key, "MP_Giant") {
        return Some("https://cdn.gametools.network/maps/bf1/MP_Giant_LandscapeLarge-dd0b93ef.jpg".to_owned());
    }
    if str_eq(key, "MP_Fields") {
        return Some("https://cdn.gametools.network/maps/bf1/MP_Fields_LandscapeLarge-5f53ddc4.jpg".to_owned());
    }
    if str_eq(key, "MP_Graveyard") {
        return Some("https://cdn.gametools.network/maps/bf1/MP_Graveyard_LandscapeLarge-bd1012e6.jpg".to_owned());
    }
    if str_eq(key, "MP_Underworld") {
        return Some("https://cdn.gametools.network/maps/bf1/MP_Underworld_LandscapeLarge-b6c5c7e7.jpg".to_owned());
    }
    if str_eq(key, "MP_Verdun") {
        return Some("https://cdn.gametools.network/maps/bf1/MP_Verdun_LandscapeLarge-1a364063.jpg".to_owned());
    }
    if str_eq(key, "MP_ShovelTown") {
        return Some("https://cdn.gametools.network/maps/bf1/MP_Shoveltown_LandscapeLarge-d0aa5920.jpg".to_owned());
    }
    if str_eq(key, "MP_Trench") {
        return Some("https://cdn.gametools.network/maps/bf1/MP_Trench_LandscapeLarge-dbd1248f.jpg".to_owned());
    }
    if str_eq(key, "MP_Bridge") {
        return Some("https://cdn.gametools.network/maps/bf1/MP_Bridge_LandscapeLarge-5b7f1b62.jpg".to_owned());
    }
    if str_eq(key, "MP_Islands") {
        return Some("https://cdn.gametools.network/maps/bf1/MP_Islands_LandscapeLarge-c9d8272b.jpg".to_owned());
    }
    if str_eq(key, "MP_Ravines") {
        return Some("https://cdn.gametools.network/maps/bf1/MP_Ravines_LandscapeLarge-1fe0d3f6.jpg".to_owned());
    }
    if str_eq(key, "MP_Tsaritsyn") {
        return Some("https://cdn.gametools.network/maps/bf1/MP_Tsaritsyn_LandscapeLarge-2dbd3bf5.jpg".to_owned());
    }
    if str_eq(key, "MP_Valley") {
        return Some("https://cdn.gametools.network/maps/bf1/MP_Valley_LandscapeLarge-8dc1c7ca.jpg".to_owned());
    }
    if str_eq(key, "MP_Volga") {
        return Some("https://cdn.gametools.network/maps/bf1/MP_Volga_LandscapeLarge-6ac49c25.jpg".to_owned());
    }
    if str_eq(key, "MP_Beachhead") {
        return Some("https://cdn.gametools.network/maps/bf1/MP_Beachhead_LandscapeLarge-5a13c655.jpg".to_owned());
    }
    if str_eq(key, "MP_Harbor") {
        return Some("https://cdn.gametools.network/maps/bf1/MP_Harbor_LandscapeLarge-d382c7ea.jpg".to_owned());
    }
    if str_eq(key, "MP_Naval") {
        return Some("https://cdn.gametools.network/maps/bf1/MP_Naval_LandscapeLarge-dc2e8daf.jpg".to_owned());
    }
    if str_eq(key, "MP_Ridge") {
        return Some("https://cdn.gametools.network/maps/bf1/MP_Ridge_LandscapeLarge-8c057a19.jpg".to_owned());
    }
    if str_eq(key, "MP_Alps") {
        return Some("https://cdn.gametools.network/maps/bf1/MP_Alps_LandscapeLarge-7ab30e3e.jpg".to_owned());
    }
    if str_eq(key, "MP_Blitz") {
        return Some("https://cdn.gametools.network/maps/bf1/MP_Blitz_LandscapeLarge-5e26212f.jpg".to_owned());
    }
    if str_eq(key, "MP_Hell") {
        return Some("https://cdn.gametools.network/maps/bf1/MP_Hell_LandscapeLarge-7176911c.jpg".to_owned());
    }
    if str_eq(key, "MP_London") {
        return Some("https://cdn.gametools.network/maps/bf1/MP_London_LandscapeLarge-0b51fe46.jpg".to_owned());
    }
    if str_eq(key, "MP_Offensive") {
        return Some("https://cdn.gametools.network/maps/bf1/MP_Offensive_LandscapeLarge-6dabdea3.jpg".to_owned());
    }
    if str_eq(key, "MP_River") {
        return Some("https://cdn.gametools.network/maps/bf1/MP_River_LandscapeLarge-21443ae9.jpg".to_owned());
    }
    if str_eq(key, "MP_ArcticFjell") {
        return Some("https://cdn.gametools.network/maps/bfv/1080p_MP_ArcticFjell-df3c1290.jpg".to_owned());
    }
    if str_eq(key, "MP_ArcticFjord") {
        return Some("https://cdn.gametools.network/maps/bfv/1080p_MP_ArcticFjord-7ba29138.jpg".to_owned());
    }
    if str_eq(key, "MP_Arras") {
        return Some("https://cdn.gametools.network/maps/bfv/1080p_MP_Arras-4b610505.jpg".to_owned());
    }
    if str_eq(key, "MP_Devastation") {
        return Some("https://cdn.gametools.network/maps/bfv/1080p_MP_Devastation-623dea60.jpg".to_owned());
    }
    if str_eq(key, "MP_Escaut") {
        return Some("https://cdn.gametools.network/maps/bfv/1080p_MP_Escaut-9764d1fb.jpg".to_owned());
    }
    if str_eq(key, "MP_Foxhunt") {
        return Some("https://cdn.gametools.network/maps/bfv/1080p_MP_AfricanFox-8ad380a5.jpg".to_owned());
    }
    if str_eq(key, "MP_Halfaya") {
        return Some("https://cdn.gametools.network/maps/bfv/1080p_MP_AfricanHalfaya-31165f9b.jpg".to_owned());
    }
    if str_eq(key, "MP_Rotterdam") {
        return Some("https://cdn.gametools.network/maps/bfv/1080p_MP_Rotterdam-55632240.jpg".to_owned());
    }
    if str_eq(key, "MP_Hannut") {
        return Some("https://cdn.gametools.network/maps/bfv/1080p_MP_Hannut-ebbe7197.jpg".to_owned());
    }
    if str_eq(key, "MP_Crete") {
        return Some("https://cdn.gametools.network/maps/bfv/1080p_MP_Crete-304a202d.jpg".to_owned());
    }
    if str_eq(key, "MP_Kalamas") {
        return Some("https://cdn.gametools.network/maps/bfv/1080p_MP_Kalamas-c64c8451.jpg".to_owned());
    }
    if str_eq(key, "MP_Provence") {
        return Some("https://cdn.gametools.network/maps/bfv/1080p_MP_ProvenceXL-a950ad3e.jpg".to_owned());
    }
    if str_eq(key, "MP_SandAndSea") {
        return Some("https://cdn.gametools.network/maps/bfv/1080p_MP_SandAndSea-f071e6f7.jpg".to_owned());
    }
    if str_eq(key, "MP_Bunker") {
        return Some("https://cdn.gametools.network/maps/bfv/1080p_MP_Bunker-7b518876.jpg".to_owned());
    }
    if str_eq(key, "MP_IwoJima") {
        return Some("https://cdn.gametools.network/maps/bfv/1080p_MP_IwoJima-760850fc.jpg".to_owned());
    }
    if str_eq(key, "MP_TropicIslands") {
        return Some("https://cdn.gametools.network/maps/bfv/1080p_MP_TropicIslands-9e0a41c3.jpg".to_owned());
    }
    if str_eq(key, "MP_WakeIsland") {
        return Some("https://cdn.gametools.network/maps/bfv/1080p_MP_WakeIsland-3238b455.jpg".to_owned());
    }
    if str_eq(key, "MP_Jungle") {
        return Some("https://cdn.gametools.network/maps/bfv/1080p_MP_Jungle-714218ce.jpg".to_owned());
    }
    if str_eq(key, "MP_Libya") {
        return Some("https://cdn.gametools.network/maps/bfv/1080p_MP_Libya-bd54b090.jpg".to_owned());
    }
    if str_eq(key, "MP_Norway") {
        return Some("https://cdn.gametools.network/maps/bfv/1080p_MP_Norway-7d6d6300.jpg".to_owned());
    }
    if str_eq(key, "DK_Norway") {
        return Some("https://cdn.gametools.network/maps/bfv/1080p_MP_Norway-7d6d6300.jpg".to_owned());
    }
    if str_eq(key, "MP_Escaut_US") {
        return Some("https://cdn.gametools.network/maps/bfv/1080p_MP_Escaut-9764d1fb.jpg".to_owned());
    }
    if str_eq(key, "MP_Hannut_US") {
        return Some("https://cdn.gametools.network/maps/bfv/1080p_MP_Hannut-ebbe7197.jpg".to_owned());
    }
    if str_eq(key, "MP_GOps_Chapter2_Arras") {
        return Some("https://cdn.gametools.network/maps/bfv/1080p_MP_Arras-4b610505.jpg".to_owned());
    }
    if str_eq(key, "MP_WE_Fortress_Devastation") {
        return Some("https://cdn.gametools.network/maps/bfv/1080p_MP_Devastation-623dea60.jpg".to_owned());
    }
    if str_eq(key, "MP_WE_Fortress_Halfaya") {
        return Some("https://cdn.gametools.network/maps/bfv/1080p_MP_AfricanHalfaya-31165f9b.jpg".to_owned());
    }
    if str_eq(key, "MP_WE_Grind_ArcticFjord") {
        return Some("https://cdn.gametools.network/maps/bfv/1080p_MP_ArcticFjord-7ba29138.jpg".to_owned());
    }
    if str_eq(key, "MP_WE_Grind_Devastation") {
        return Some("https://cdn.gametools.network/maps/bfv/1080p_MP_Devastation-623dea60.jpg".to_owned());
    }
    if str_eq(key, "MP_WE_Grind_Escaut") {
        return Some("https://cdn.gametools.network/maps/bfv/1080p_MP_Escaut-9764d1fb.jpg".to_owned());
    }
    if str_eq(key, "MP_WE_Grind_Rotterdam") {
        return Some("https://cdn.gametools.network/maps/bfv/1080p_MP_Rotterdam-55632240.jpg".to_owned());
    }
    None
}

/// The short abbreviation a known mode key resolves to.
pub open spec fn spec_mode_abbr(key: Seq<char>) -> Option<Seq<char>> {
    if key == "Conquest0"@ {
        Some("CQ"@)
    } else if key == "Rush0"@ {
        Some("RS"@)
    } else if key == "BreakThrough0"@ {
        Some("SO"@)
    } else if key == "BreakthroughLarge0"@ {
        Some("OP"@)
    } else if key == "Possession0"@ {
        Some("WP"@)
    } else if key == "TugOfWar0"@ {
        Some("FL"@)
    } else if key == "AirAssault0"@ {
        Some("AA"@)
    } else if key == "Domination0"@ {
        Some("DM"@)
    } else if key == "TeamDeathMatch0"@ {
        Some("TM"@)
    } else if key == "ZoneControl0"@ {
        Some("RS"@)
    } else {
        None
    }
}

/// Looks a mode key up in the abbreviation table.
pub fn mode_abbr(key: &str) -> (r: Option<String>)
    ensures
        opt_view(r) == spec_mode_abbr(key@),
{
    if str_eq(key, "Conquest0") {
        return Some("CQ".to_owned());
    }
    if str_eq(key, "Rush0") {
        return Some("RS".to_owned());
    }
    if str_eq(key, "BreakThrough0") {
        return Some("SO".to_owned());
    }
    if str_eq(key, "BreakthroughLarge0") {
        return Some("OP".to_owned());
    }
    if str_eq(key, "Possession0") {
        return Some("WP".to_owned());
    }
    if str_eq(key, "TugOfWar0") {
        return Some("FL".to_owned());
    }
    if str_eq(key, "AirAssault0") {
        return Some("AA".to_owned());
    }
    if str_eq(key, "Domination0") {
        return Some("DM".to_owned());
    }
    if str_eq(key, "TeamDeathMatch0") {
        return Some("TM".to_owned());
    }
    if str_eq(key, "ZoneControl0") {
        return Some("RS".to_owned());
    }
    None
}

/// The display name shown in the status text: the table entry, or the raw
/// key when the table has no entry for it.
pub open spec fn spec_display_or_raw(key: Seq<char>) -> Seq<char> {
    match spec_display_name(key) {
        Some(v) => v,
        None => key,
    }
}

/// Resolves a map key to its display name, falling back to the raw key.
pub fn display_or_raw(key: &str) -> (r: String)
    ensures
        r@ == spec_display_or_raw(key@),
{
    match display_name(key) {
        Some(v) => v,
        None => key.to_owned(),
    }
}

/// The image URL the renderer downloads: the table entry, or the raw key
/// when the table has no entry for it.
pub open spec fn spec_image_or_raw(key: Seq<char>) -> Seq<char> {
    match spec_image_url(key) {
        Some(v) => v,
        None => key,
    }
}

/// Resolves a map key to its image URL, falling back to the raw key.
pub fn image_or_raw(key: &str) -> (r: String)
    ensures
        r@ == spec_image_or_raw(key@),
{
    match image_url(key) {
        Some(v) => v,
        None => key.to_owned(),
    }
}

/// The abbreviation drawn on the image: the table entry, or the empty
/// string when the table has no entry for it.
pub open spec fn spec_abbr_or_empty(key: Seq<char>) -> Seq<char> {
    match spec_mode_abbr(key) {
        Some(v) => v,
        None => Seq::<char>::empty(),
    }
}

/// Resolves a mode key to its abbreviation, falling back to the empty string.
pub fn abbr_or_empty(key: &str) -> (r: String)
    ensures
        r@ == spec_abbr_or_empty(key@),
{
    match mode_abbr(key) {
        Some(v) => v,
        None => String::new(),
    }
}

/// Law: table resolution is deterministic and total. For every key, each
/// table resolves to exactly one value: the table's entry when the key is
/// known, and otherwise the raw key (display name, image URL) or the empty
/// string (abbreviation). A missing entry is never an error.
pub proof fn lemma_lookup_resolution_total(key: Seq<char>)
    ensures
        spec_display_name(key) matches Some(v) ==> spec_display_or_raw(key) == v,
        spec_display_name(key) is None ==> spec_display_or_raw(key) == key,
        spec_image_url(key) matches Some(v) ==> spec_image_or_raw(key) == v,
        spec_image_url(key) is None ==> spec_image_or_raw(key) == key,
        spec_mode_abbr(key) matches Some(v) ==> spec_abbr_or_empty(key) == v,
        spec_mode_abbr(key) is None ==> spec_abbr_or_empty(key) == Seq::<char>::empty(),
{
}

} // verus!
