use vstd::prelude::*;

verus! {

/// Identifiers of the printed cards that the engine's rules refer to by name.
#[derive(Clone, Copy, Debug, PartialEq, Eq, Structural, Hash)]
pub enum CardId {
    A1001Bulbasaur,
    A1003Venusaur,
    A1033Charmander,
    A1053Squirtle,
    A1080Vaporeon,
    A1101Electabuzz,
    A1174Grimer,
    A1219Erika,
    A1220Misty,
    A1221Blaine,
    A1222Koga,
    A1223Giovanni,
    A1224Brock,
    A1225Sabrina,
    A1226LtSurge,
    A1266Erika,
    A1267Misty,
    A1268Blaine,
    A1269Koga,
    A1270Giovanni,
    A1271Brock,
    A1272Sabrina,
    A1273LtSurge,
    A1a003CelebiEx,
    A1a025Pikachu,
    A1a064PokemonFlute,
    A1a065MythicalSlab,
    A1a066BuddingExpeditioner,
    A1a067Blue,
    A1a068Leaf,
    A1a080BuddingExpeditioner,
    A1a081Blue,
    A1a082Leaf,
    A2058Shinx,
    A2125LickilickyEx,
    A2146PokemonCommunication,
    A2150Cyrus,
    A2151TeamGalacticGrunt,
    A2152Cynthia,
    A2153Volkner,
    A2154Dawn,
    A2155Mars,
    A2190Cyrus,
    A2191TeamGalacticGrunt,
    A2192Cynthia,
    A2193Volkner,
    A2194Dawn,
    A2195Mars,
    A2a071ArceusEx,
    A2a072Irida,
    A2a073CelesticTownElder,
    A2a074Barry,
    A2a075Adaman,
    A2a087Irida,
    A2a088CelesticTownElder,
    A2a089Barry,
    A2a090Adaman,
    A2b069Iono,
    A2b070PokemonCenterLady,
    A2b071Red,
    A2b072TeamRocketGrunt,
    A2b088Iono,
    A2b089PokemonCenterLady,
    A2b090Red,
    A2b091TeamRocketGrunt,
    A2b111PokeBall,
    A3066Oricorio,
    A3118AlolanDugtrio,
    A3142BigMalasada,
    A3143FishingNet,
    A3144RareCandy,
    A3145RotomDEx,
    A3148Acerola,
    A3149Ilima,
    A3150Kiawe,
    A3151Guzma,
    A3152Lana,
    A3153Sophocles,
    A3154Mallow,
    A3155Lillie,
    A3190Acerola,
    A3191Ilima,
    A3192Kiawe,
    A3193Guzma,
    A3194Lana,
    A3195Sophocles,
    A3196Mallow,
    A3197Lillie,
    A3208Guzma,
    A3209Lillie,
    A3a042Nihilego,
    A3a043GuzzlordEx,
    A3a063BeastWall,
    A3a064Repel,
    A3a067Gladion,
    A3a068Looker,
    A3a069Lusamine,
    A3a081Gladion,
    A3a082Looker,
    A3a083Lusamine,
    A3b066EeveeBag,
    A3b068Hau,
    A3b069Penny,
    A3b085Hau,
    A3b086Penny,
    A3b107EeveeBag,
    A4151ElementalSwitch,
    A4152SquirtBottle,
    A4156Will,
    A4157Lyra,
    A4158Silver,
    A4159Fisher,
    A4160Jasmine,
    A4161Hiker,
    A4196Will,
    A4197Lyra,
    A4198Silver,
    A4199Fisher,
    A4200Jasmine,
    A4201Hiker,
    A4a069Whitney,
    A4a070TravelingMerchant,
    A4a071Morty,
    A4a083Whitney,
    A4a084TravelingMerchant,
    A4a085Morty,
    A4b308EeveeBag,
    A4b309EeveeBag,
    A4b310ElementalSwitch,
    A4b311ElementalSwitch,
    A4b314RareCandy,
    A4b315RareCandy,
    A4b316PokemonCommunication,
    A4b317PokemonCommunication,
    A4b326Cyrus,
    A4b327Cyrus,
    A4b328Erika,
    A4b329Erika,
    A4b330Irida,
    A4b331Irida,
    A4b332Lyra,
    A4b333Lyra,
    A4b334Giovanni,
    A4b335Giovanni,
    A4b336Silver,
    A4b337Silver,
    A4b338Sabrina,
    A4b339Sabrina,
    A4b340Iono,
    A4b341Iono,
    A4b342Dawn,
    A4b343Dawn,
    A4b344Mars,
    A4b345Mars,
    A4b346Leaf,
    A4b347Leaf,
    A4b348Lillie,
    A4b349Lillie,
    A4b350Lusamine,
    A4b351Lusamine,
    A4b352Red,
    A4b353Red,
    A4b373ProfessorsResearch,
    A4b374Lillie,
    A4b375Lusamine,
    A4b379RareCandy,
    B1211Wooloo,
    B1213PrankSpinner,
    B1215HittingHammer,
    B1217FlamePatch,
    B1220LuckyMittens,
    B1221Marlon,
    B1222Hala,
    B1223May,
    B1224Fantina,
    B1225Copycat,
    B1226Lisia,
    B1266Marlon,
    B1267Hala,
    B1268May,
    B1269Fantina,
    B1270Copycat,
    B1271Lisia,
    B1331FlamePatch,
    B1a066ClemontsBackpack,
    B1a067QuickGrowExtract,
    B1a068Clemont,
    B1a069Serena,
    B1a081Clemont,
    B1a082Serena,
    B1a103QuickGrowExtract,
    B2073MimikyuEx,
    B2124Meowth,
    B2145LuckyIcePop,
    B2149Diantha,
    B2150Sightseer,
    B2151Juggler,
    B2152Piers,
    B2190Diantha,
    B2191Sightseer,
    B2192Juggler,
    B2193Piers,
    B2a042BelliboltEx,
    B2a086ElectricGenerator,
    B2a088TeamStarGrunt,
    B2a089Iono,
    B2a090Nemona,
    B2a091Arven,
    B2a092Penny,
    B2a105TeamStarGrunt,
    B2a106Iono,
    B2a107Nemona,
    B2a108Arven,
    B2a109Penny,
    B2a115Arven,
    B2a131ElectricGenerator,
    B2b056Haxorus,
    B2b065NastyNotice,
    B2b066Maintenance,
    B2b067Iris,
    B2b068Calem,
    B2b081Iris,
    B2b082Calem,
    B2b110Haxorus,
    B3147FieldBlower,
    B3149Korrina,
    B3150Cabbie,
    B3151Cheren,
    B3152ParasolLady,
    B3190Korrina,
    B3191Cabbie,
    B3192Cheren,
    B3193ParasolLady,
    B3a051IronTreads,
    B3a071Juliana,
    B3a072ProfessorSada,
    B3a073ProfessorTuro,
    B3a086Juliana,
    B3a087ProfessorSada,
    B3a088ProfessorTuro,
    B3b066Elesa,
    B3b067PuppyLovingGirl,
    B3b068Wallace,
    B3b083Elesa,
    B3b084PuppyLovingGirl,
    B3b085Wallace,
    B4145OrderPad,
    B4150Psychic,
    B4151Drayden,
    B4152Skyla,
    B4153Wally,
    B4190Psychic,
    B4191Drayden,
    B4192Skyla,
    B4193Wally,
    B4a067TeamRocketsThievingMachine,
    B4a068TeamRocketsGoozooka,
    B4a069TeamRocketsResearcher,
    B4a070TeamRocketsMasterPlan,
    B4a071TeamRocketsBoss,
    B4a085TeamRocketsResearcher,
    B4a086TeamRocketsMasterPlan,
    B4a087TeamRocketsBoss,
    B4a094TeamRocketsMasterPlan,
    B4a110TeamRocketsGoozooka,
    PA001Potion,
    PA002XSpeed,
    PA003HandScope,
    PA004PokedEx,
    PA005PokeBall,
    PA006RedCard,
    PA007ProfessorsResearch,
    PA008PokedEx,
    PA063Rayquaza,
    PB045Haxorus,
}

} // verus!
