use web_rpc::decl::{AnnItem, ArgDecl, ArgPat, AttrDecl, GroupItem, MethodDecl, RpcMethod};
use web_rpc::wire::{
    join_args, join_args_checked, method_modes, split_args, CallValue, OpaqueValue, ParamMode,
};

fn ident(s: &str) -> Vec<u8> {
    s.as_bytes().to_vec()
}

fn opaque(handle: u64) -> CallValue {
    CallValue::Opaque(OpaqueValue { handle })
}

#[test]
fn modes_follow_the_annotations() {
    let decl = MethodDecl {
        attrs: vec![AttrDecl {
            path: ident("post"),
            items: vec![
                AnnItem::Group {
                    path: ident("transfer"),
                    items: vec![GroupItem::Name(ident("canvas"))],
                },
                AnnItem::Name(ident("overlay")),
            ],
        }],
        is_async: false,
        name: ident("draw"),
        args: vec![
            ArgDecl::Typed { pat: ArgPat::Ident(ident("canvas")), ty: ident("OffscreenCanvas") },
            ArgDecl::Typed { pat: ArgPat::Ident(ident("x")), ty: ident("u32") },
            ArgDecl::Typed { pat: ArgPat::Ident(ident("overlay")), ty: ident("ImageBitmap") },
            ArgDecl::Typed { pat: ArgPat::Ident(ident("y")), ty: ident("u32") },
        ],
        output: None,
    };
    let method = RpcMethod::from_decl(&decl).expect("well-formed method");
    let modes = method_modes(&method);
    assert_eq!(
        modes,
        vec![
            ParamMode::PostedByTransfer,
            ParamMode::Serialized,
            ParamMode::PostedByValue,
            ParamMode::Serialized,
        ]
    );
}

#[test]
fn split_partitions_in_declaration_order() {
    // Two posted parameters interleaved with the serialized ones, in an
    // order different from theirs.
    let modes = vec![
        ParamMode::PostedByValue,
        ParamMode::Serialized,
        ParamMode::PostedByTransfer,
        ParamMode::Serialized,
    ];
    let args = vec![opaque(7), CallValue::Data(1), opaque(9), CallValue::Data(2)];
    let (data, oob, flags) = split_args(&modes, &args);
    assert_eq!(data, vec![1, 2]);
    assert_eq!(oob, vec![OpaqueValue { handle: 7 }, OpaqueValue { handle: 9 }]);
    assert_eq!(flags, vec![false, true]);
}

#[test]
fn positional_reconstruction_restores_every_argument() {
    let modes = vec![
        ParamMode::PostedByValue,
        ParamMode::Serialized,
        ParamMode::PostedByTransfer,
        ParamMode::Serialized,
        ParamMode::PostedByValue,
    ];
    let args = vec![
        opaque(11),
        CallValue::Data(1),
        opaque(22),
        CallValue::Data(2),
        opaque(33),
    ];
    let (data, oob, _flags) = split_args(&modes, &args);
    let rebuilt = join_args(&modes, &data, &oob);
    assert_eq!(rebuilt, args);
}

#[test]
fn reordered_out_of_band_values_change_the_reconstruction() {
    // The receiver consumes out-of-band values positionally: handing them
    // over in another order yields other arguments, never a reshuffled
    // match by name.
    let modes = vec![ParamMode::PostedByValue, ParamMode::PostedByValue];
    let args = vec![opaque(1), opaque(2)];
    let (data, oob, _) = split_args(&modes, &args);
    let swapped: Vec<OpaqueValue> = vec![oob[1], oob[0]];
    let rebuilt = join_args(&modes, &data, &swapped);
    assert_eq!(rebuilt, vec![opaque(2), opaque(1)]);
    assert_ne!(rebuilt, args);
}

#[test]
fn checked_reconstruction_rejects_wrong_counts() {
    let modes = vec![ParamMode::Serialized, ParamMode::PostedByValue];
    let data = vec![5u64];
    let oob = vec![OpaqueValue { handle: 4 }];
    assert!(join_args_checked(&modes, &data, &oob).is_some());

    let short_oob: Vec<OpaqueValue> = vec![];
    assert!(join_args_checked(&modes, &data, &short_oob).is_none());

    let extra_data = vec![5u64, 6u64];
    assert!(join_args_checked(&modes, &extra_data, &oob).is_none());
}
