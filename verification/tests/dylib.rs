use memloader::dylib::{BundleLibrary, BundleLoadError, RetaggedImage, IMAGE_TYPE_OFFSET};

fn dylib_image(first_bytes: &[u8]) -> Vec<u8> {
    // a buffer long enough to carry the image-type tag, with the
    // standard shared-library tag at the fixed offset
    let mut data = vec![0u8; 32];
    data[IMAGE_TYPE_OFFSET] = 0x0B;
    for (i, b) in first_bytes.iter().enumerate() {
        data[i] = *b;
    }
    data
}

#[test]
fn retag_rejects_short_buffer() {
    let r = RetaggedImage::retag(Vec::new());
    assert!(matches!(r, Err(BundleLoadError::ImageTooShortError)));
    let r = RetaggedImage::retag(vec![0u8; IMAGE_TYPE_OFFSET]);
    assert!(matches!(r, Err(BundleLoadError::ImageTooShortError)));
}

#[test]
fn retag_accepts_minimal_buffer() {
    let r = RetaggedImage::retag(vec![0u8; IMAGE_TYPE_OFFSET + 1]);
    let img = r.unwrap();
    assert_eq!(img.len(), IMAGE_TYPE_OFFSET + 1);
    assert_eq!(img.bytes()[IMAGE_TYPE_OFFSET], 0x08);
}

#[test]
fn retag_rewrites_library_tag_to_bundle_tag() {
    let data = dylib_image(&[0xCF, 0xFA, 0xED, 0xFE]);
    let img = RetaggedImage::retag(data.clone()).unwrap();
    assert_eq!(img.bytes()[IMAGE_TYPE_OFFSET], 0x08);
    // every other byte is untouched
    for i in 0..data.len() {
        if i != IMAGE_TYPE_OFFSET {
            assert_eq!(img.bytes()[i], data[i]);
        }
    }
}

#[test]
fn retag_twice_is_idempotent() {
    let data = dylib_image(&[1, 2, 3, 4]);
    let once = RetaggedImage::retag(data).unwrap();
    let twice = RetaggedImage::retag(once.bytes().clone()).unwrap();
    assert_eq!(once.bytes(), twice.bytes());
}

#[test]
fn rejected_image_fails_with_invalid_nsobject() {
    let img = RetaggedImage::retag(dylib_image(&[])).unwrap();
    let r = BundleLibrary::new(img, false, 0);
    assert!(matches!(r, Err(BundleLoadError::InvalidNSObject)));
}

#[test]
fn accepted_image_links() {
    let data = dylib_image(&[9, 9]);
    let img = RetaggedImage::retag(data.clone()).unwrap();
    let lib = BundleLibrary::new(img, true, 0x4000).unwrap();
    // the wrapper keeps the retagged image alive and unchanged
    assert_eq!(lib.image_bytes().len(), data.len());
    assert_eq!(lib.image_bytes()[IMAGE_TYPE_OFFSET], 0x08);
}

#[test]
fn missing_symbol_fails_resolution() {
    let img = RetaggedImage::retag(dylib_image(&[])).unwrap();
    let lib = BundleLibrary::new(img, true, 0x4000).unwrap();
    // the lookup for "_nonexistent_symbol" came back with the null sentinel
    assert!(matches!(lib.get_symbol(0), Err(BundleLoadError::SymbolResolutionFailure)));
    assert!(matches!(
        lib.get_symbol_address(0, 0x77),
        Err(BundleLoadError::SymbolResolutionFailure)
    ));
}

#[test]
fn zero_address_fails_even_after_symbol_resolved() {
    let img = RetaggedImage::retag(dylib_image(&[])).unwrap();
    let lib = BundleLibrary::new(img, true, 0x4000).unwrap();
    // the symbol object exists, yet the address query returned zero
    assert!(lib.get_symbol(0x500).is_ok());
    assert!(matches!(
        lib.get_symbol_address(0x500, 0),
        Err(BundleLoadError::SymbolAddressFailure)
    ));
}

#[test]
fn resolved_symbol_address_is_returned() {
    let img = RetaggedImage::retag(dylib_image(&[])).unwrap();
    let lib = BundleLibrary::new(img, true, 0x4000).unwrap();
    let sym = lib.get_symbol(0x500).unwrap();
    assert_eq!(sym.handle, 0x500);
    assert_eq!(lib.get_symbol_address(0x500, 0xBEE0).unwrap(), 0xBEE0);
}

#[test]
fn release_unlinks_exactly_once() {
    let img = RetaggedImage::retag(dylib_image(&[])).unwrap();
    let mut lib = BundleLibrary::new(img, true, 0x4000).unwrap();
    // only the first teardown asks the driver for the native unlink
    assert!(lib.release());
    assert!(!lib.release());
    assert!(!lib.release());
}

#[test]
fn error_messages_name_the_failure() {
    assert_eq!(
        BundleLoadError::InvalidNSObject.message(),
        "Error converting byte array to NSObject"
    );
    assert_eq!(
        BundleLoadError::SymbolResolutionFailure.message(),
        "Symbol does not exist within the NSObject"
    );
    assert_eq!(
        BundleLoadError::SymbolAddressFailure.message(),
        "Symbol resolved but the address lookup failed"
    );
    assert_eq!(
        BundleLoadError::ImageTooShortError.message(),
        "Image buffer is too short to hold the format tag"
    );
}
