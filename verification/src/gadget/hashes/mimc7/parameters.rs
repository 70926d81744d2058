//! The round constants of MiMC-7 over the scalar field of BN254.
use crate::field::Fr;
use vstd::prelude::*;

verus! {

/// The number of round constants.
pub const ROUNDS: usize = 91;

/// The round constants as limbs. They are hash outputs of 256 bits, so most
/// of them stand for larger integers than the field's order: what counts is
/// their residue.
pub const ROUND_CONSTANTS: [[u64; 4]; 91] = [
    [0xff5f61df13a39401, 0x79de9cee7a56c656, 0x62411ddfcde35274, 0xaed26d6a3f5e0ea6],
    [0xec7b174a3cd5a8e8, 0xd3a132d8e16c2941, 0x442ee1f0fd68277a, 0x2fd3f713342a30b6],
    [0x359289cafff7c902, 0x3945793a7dc4bfb6, 0x3851ae1abdc73549, 0x0c52ba72571f8fa2],
    [0x2f6edd5ed7f9881c, 0x631d469cc9d46275, 0x147eeb49471b79d0, 0x0b775ae9ca4e06bc],
    [0x5fdf899f688ce32e, 0xd4e72aadf79acee0, 0xa73952159cf9c220, 0x9f5c3725c37289eb],
    [0x0d418a4a8b7aa5cc, 0x3b9d8498c97cdc6f, 0xf2c433a9a34f2b5e, 0xe8aec5648b139303],
    [0xa1e435daafc88fb5, 0xa52059ece4e4b56b, 0x976d00b143f65bdd, 0x527d7389be43a5bb],
    [0xc8e8d4d2a9dcda08, 0x64ab583e123cdd09, 0xd69060809a52f82d, 0x7febf0e40ad207fe],
    [0xf5e22724a5c93988, 0x4197ab54e6f823b1, 0xb15fab04665f7b75, 0x159a66c3cc74c0cc],
    [0x61ea13b8e6f502d0, 0xaa480b49a9580638, 0xfeea94eeeb8fd642, 0xe168f563aef7738f],
    [0x8efe66efc3e95270, 0x78d55003345fca20, 0x83690df7c88b8746, 0x85882afbc60a9cdd],
    [0xbac5430bf50265a0, 0x07fdfc834b328aa3, 0x20ca2753a069c7db, 0x1e4424851dc882b8],
    [0x1fff6e6c7940a3e3, 0xae1d2218f1cbfaf9, 0xcc7343e152f19a04, 0x12575adc28eba0b4],
    [0x7bd1ad82d50d45dd, 0x71bfedcc8116ddec, 0xdec5b8e18dcc1a40, 0x554431b9c80b23f0],
    [0x38073b9c9964432d, 0x02df0bbb952e1ea5, 0xea48dd70952f0b96, 0x3c5c5212ab8777dd],
    [0x05b8163f30f613ef, 0x6ebd33ea15be6712, 0xd1a71eeb088b98ad, 0xf868339ec95f3fdb],
    [0x22f8eeef5f60e768, 0xb3df8ade649b89d0, 0x4ccf95715dd8581f, 0x3a1befa381627026],
    [0x0553e37dc0f64928, 0x635121e34d9d1473, 0x66a5c326c7cb787b, 0xc520090bf0284478],
    [0x562e365d57316140, 0x4e679960a732e666, 0x774b2494e6f8fe52, 0xbf08f1ee94f2d6d7],
    [0x460e22db15c10d51, 0x501387a5f358fa1f, 0x028a0891dbd3270c, 0x6feb75e1d522616e],
    [0xe081ab157b2d576a, 0x746eb1620062ba0b, 0x28366dee563cf03d, 0xea8ddd0d308cabcc],
    [0xf5fc98674b87ba26, 0xb14193764dffd8aa, 0xe0300af40dff6f99, 0xbb98e147fbb1b901],
    [0xadb0723b7eed111f, 0xfe3fa2571a1eed15, 0x0f06bb7cfd8d6935, 0x5209e41effa112c6],
    [0x31c73ceb6889eb8e, 0xdb54f2f9026178c1, 0xdcff8ba8630587d2, 0xc1ca0068d0a541cf],
    [0x385a2f723402999d, 0x71800ec4477f6041, 0x545b34eba3a14eea, 0x48525a21e8bcaf9f],
    [0x255362de40dc1c17, 0x88656a25fbfbac7c, 0x7c3d0b3387042273, 0x50de6355b9cc874a],
    [0xdf9ab6a70903fb92, 0x3a165ed23d138199, 0xf9993bebedfaee06, 0xbe918a03f89de1e6],
    [0xfecee3b60e660d20, 0xe297c8fcdc246ae3, 0x478b2f6e5618a319, 0x07ec1494f78843f7],
    [0x38f6057cf2b68965, 0xf2f2151d03df48c0, 0x020d5b1b2a588d52, 0xf5643938b229e677],
    [0x8ea95fbec3ffdfe4, 0x1a3ef826036d9891, 0x602ec453e3b60836, 0x3385033d5865eeea],
    [0xe291a6d265aaf942, 0x5670a5ea540232f1, 0x0965c4714617f0de, 0xa1a0248d82cc8d25],
    [0xae71f6f65f2b3882, 0xcbf26be153d11bdd, 0x510d93e8665d4d6d, 0x7dd8cdc7885ec724],
    [0xb15522924b296c41, 0x1b486b559e18ce0e, 0xa80077ead6b9639e, 0x9b41324ca857aaf7],
    [0xb01c322f5c232a2a, 0x3869a84e66f88f37, 0xbd6f20f8ba4f2ce0, 0x217a17432f14d95e],
    [0x6eca8978548f6bc7, 0xf35009491a665e12, 0x9b5c39e2574cc97f, 0xc2450f0a56fb3e50],
    [0xb50091cfadd92659, 0x32d324ce43cf72e7, 0x61183d9fc843f6f1, 0x0b8c16ff19554117],
    [0xcc30aa203130884e, 0x1064e9046ddee2d1, 0x9d52489e06c847f0, 0xfbace5b1c7092119],
    [0xb52cb6bf2aab9fbc, 0x4802af2c9f8746f2, 0x8efe20a16ed53ad8, 0x3706f5fee7a45414],
    [0xa5896acdd0e87b5b, 0xfe2000bc741f5733, 0x11e5c3564e7f308a, 0xe4ebac6d8b3afd1a],
    [0x5ee2c45d64335aa5, 0xc73cdabf7992f18e, 0x91be131150dc9ca1, 0xe79a3054b7903d20],
    [0xfde7125ac55ca961, 0x95ab2991853b053f, 0x9862a402cc182208, 0x9ae538c371840c7f],
    [0x79438366ece17c2a, 0x9f95411e959ab152, 0x21bcd2ab53937c0b, 0x19a415fc05fe4c2d],
    [0xfa93145232b89b70, 0xcbad0a64657916c4, 0x6340233586d8c387, 0x979e4c1eb0b83fa8],
    [0x6c21e84375c22f64, 0xee5cae8de7c83364, 0xbdc772b3ec5a376b, 0x7044e8ce2e55e56a],
    [0xa6806afaf37a3654, 0x2d037b93247ca857, 0xf1a08f72b810c6dd, 0x4fa50c8d45a1ab37],
    [0x144df127b4678022, 0xe90950d80c8d0807, 0x54ab2d1ad5610ee2, 0xc05881f3c28253b2],
    [0x48cfca4880218256, 0xe5e269b8502dc237, 0x3db9e4abf60c484b, 0x23f28f6bfc64aeb0],
    [0x979355a65c18bf54, 0x6f514f320b75c1fc, 0xac19342c60f250a2, 0xd64d04f4ba3ba8a4],
    [0x95e2feaa5ab0c6de, 0xefd22f66e16c982f, 0xadd38e4849b4628f, 0xa04c4080751ae60f],
    [0x62067d361b32a567, 0x8f0cfc70609266f9, 0xf84d13343df3e794, 0x58099fc4dccfc095],
    [0x96019a80579de073, 0xb553153952d6b250, 0x9bdff6d4a87d0f57, 0x6048574939b66571],
    [0xf68f72f6b1429db4, 0x7ef644f57fed8680, 0x943213f9f2a8d107, 0x5f1571dde6a0bfd5],
    [0xf478f6c6ee5077e6, 0x423e9bcf4b3cad6a, 0x8f386700c0c8496a, 0xba1f623b0c082826],
    [0xbbda1673612a1ce6, 0x685efa822b9bb488, 0xda7a15846cda431e, 0x4e96bff8f67c0084],
    [0x55471e50aecb8920, 0x628d93760ccc4e2b, 0xe0983ac1ae41c6a3, 0xe0cc681538533056],
    [0xd789045b92991419, 0x7b7ed80e8e50dd2e, 0xfb4f53af7fa6ad95, 0x82a41a8d605f0558],
    [0x5226bf67533b2111, 0xb1441ad23c2fbfc6, 0xd354ef1479eb56d8, 0x81014098cd70cc62],
    [0x22982df79943ce37, 0xb8bbcd844503d237, 0xb61c0be3c4a09ff8, 0x51068d5413cc15c6],
    [0xbcbf79298cc27ee3, 0xc14db3bd3ed48ff2, 0xabdb8fd2e8b3d5ad, 0xceb141d14e64e2b7],
    [0xa3ed45c7518e87bc, 0xa642ec66cdefaa01, 0x48043fa566ab84cb, 0xbc6d07f35e245d95],
    [0x69cfdf3b5c0426b6, 0xd0ab901487b904b1, 0xefe332ab8e84f355, 0xcc3d302cf0d5d0bd],
    [0x3ec13844906eec6e, 0xe72f019736e73c5f, 0xebd3abd03f5c9dd3, 0x18c062ae07e7a6bc],
    [0x855847902a5ea65e, 0xa1d8f3137560133a, 0x12af17dacfbc0ae9, 0x01fddd9572d81c3c],
    [0xaf534314e8d2b43e, 0xfc622be605596476, 0x06c77e5abb4cb5d1, 0x8a91fd7aa62ca82f],
    [0x4130be5724b96215, 0x09520e1302166cc9, 0x0978ae2234df2b3d, 0xd30cf431aa7e667d],
    [0xf3a2d4d325bf565a, 0x8d4266f0c34fae2d, 0xce353de64c6e5377, 0xb3d0f55d561885c4],
    [0x006f8df39474c4fe, 0xeba78cdb395f7dc1, 0x7878481850e5afe8, 0x3d0f71e4577e222a],
    [0x3e24a32d5bcbc244, 0xc8b605a2cefaa9eb, 0x222b061efc15e1f7, 0x839d2e4b1ac66e5b],
    [0xbf2c9dc246220aec, 0x0dc87193a9178620, 0x9d27c07a5176ca6a, 0xcdcc38d0d9b8368c],
    [0x8114f9e9f0095c92, 0x6902eabb4f86eec1, 0xec1546f80ee18be5, 0xc979d87d352e60ad],
    [0x04a5eb67757ff886, 0x64c0f85197ad4fff, 0x07c3f12a2118a240, 0x40c7a1ed01005220],
    [0x86838ab215d084fb, 0x68add8eb218678f2, 0x71966587fe9b297b, 0x352b106f8b05203f],
    [0x2d89881324906bb6, 0x0ba5a8dd5ada4100, 0x5f3a8cf1595043fd, 0xdbca068bd0aaacf8],
    [0x23798af422124aa0, 0x42fd2bd16b098ff8, 0xaf4cc53c525e2487, 0x222caf630ec81c43],
    [0x5c2bb7e67badb0c9, 0xeec31654e6eb887d, 0xa215a0f6a82fb212, 0x6d529168673d1be5],
    [0x3d1177fe233332d3, 0xe80485c0a829fab8, 0x4d829b13e0f419e1, 0xd2d0d4bb1813d28f],
    [0x343de7ac4b837ed5, 0x7bcadf1683f605ff, 0x6c2a254abca5fc3f, 0x0e359cf8f10877b2],
    [0xb567a8c63b9dae3f, 0x472a69352f84d8d9, 0x10073434f01280fd, 0x4db0debcce2057cd],
    [0xd9af33f0d4a5ea89, 0x44d9f6424ee7d304, 0x92248e104fe662bd, 0x550613a139fb8dc4],
    [0xb5f0ef3450f210e2, 0x7f909b3a8c22aca9, 0x591a772a38c9d774, 0x2921f5b8e014b0c1],
    [0x6adefd7225803c42, 0xb24c21705b122a10, 0xf5b2cb5c57039bc1, 0x33347995aa0d8244],
    [0x0038a94ceecdbb9f, 0xe85df21cdda31084, 0x6b8759e9cc5fe2ab, 0x3fd931f11ed34796],
    [0xc8c8a7fa8b0968c0, 0x5c9c95fe7fa6a947, 0xf00235ecdc966947, 0xc22fc08cfb542a0c],
    [0xce6e727d4e1928c2, 0x0d2a1324a65a2929, 0xe56f18bfe1e58f9d, 0x6e5a7a361dd37d34],
    [0x8b70c200c78d41e6, 0x103aea3915f8cca3, 0xd4645c07c7a102ea, 0xe57693fd871e6889],
    [0x10d25a2c336540d2, 0xc497fe71f99b3be1, 0x160e52b252d030e6, 0x227ee87881842b83],
    [0x4ac065add56554e7, 0xa5888b24cdeb4a2e, 0xa2e3a8f9a29c1c93, 0xcfe8b070c4fd1ca3],
    [0xbb18f30680e979b5, 0xee0a075b70bded3b, 0xc41e4890a221fa9f, 0x9f2c2ecf0d31fd9f],
    [0xda9996a3d586ef74, 0x2016c6fb73dee9ab, 0x41b1f947eb00f80e, 0xeda03c33c5764cbf],
    [0x88058f0f07523e78, 0x671a981e52864707, 0x56f8d84f158ceeea, 0x6e0038296e55aad2],
    [0x4b89f67a695259b2, 0x32ced198dc9a63c7, 0xf561dd4a07d0bb35, 0x361e359068051320],
];

/// The round constants of MiMC-7 for BN254.
pub fn get_bn256_round_constants() -> (r: Vec<Fr>)
    ensures
        r.len() == ROUNDS,
        forall|i: int| 0 <= i < ROUNDS ==> (#[trigger] r[i]).limbs == ROUND_CONSTANTS[i],
{
    let mut out: Vec<Fr> = Vec::new();
    let mut i: usize = 0;
    while i < ROUNDS
        invariant
            i <= ROUNDS,
            out.len() == i,
            forall|k: int| 0 <= k < i ==> (#[trigger] out[k]).limbs == ROUND_CONSTANTS[k],
        decreases ROUNDS - i,
    {
        out.push(Fr { limbs: ROUND_CONSTANTS[i] });
        i += 1;
    }
    out
}

} // verus!
