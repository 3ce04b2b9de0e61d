use curdk::{
    activation, checked_c_int, Activation, Border, CText, Error,
};

#[test]
fn interior_nul_is_reported() {
    let error = Error::from(CText::new("invalid\0message").unwrap_err());
    assert!(matches!(error, Error::InteriorNul(_)));
}

#[test]
fn border_presets_match_box_and_shadow_flags() {
    assert_eq!(Border::default(), Border::NONE());
    assert_eq!(
        Border::NONE(),
        Border {
            boxed: false,
            shadow: false
        }
    );
    assert_eq!(
        Border::BOXED(),
        Border {
            boxed: true,
            shadow: false
        }
    );
    assert_eq!(
        Border::SHADOWED(),
        Border {
            boxed: true,
            shadow: true
        }
    );
    assert_eq!(Border::NONE().boxed_flag(), 0);
    assert_eq!(Border::BOXED().boxed_flag(), 1);
    assert_eq!(Border::SHADOWED().shadow_flag(), 1);
}

#[test]
fn null_handle_has_context() {
    let error = Error::NullHandle("Label");
    assert_eq!(error.message(), "CDK returned a null Label handle");
}

#[test]
fn c_integer_conversion_rejects_overflow() {
    assert_eq!(
        checked_c_int(i32::MAX as u64, "width").unwrap(),
        i32::MAX
    );
    assert!(matches!(
        checked_c_int(i32::MAX as u64 + 1, "width"),
        Err(Error::ValueOutOfRange("width", _))
    ));
}

#[test]
fn activation_values_are_typed() {
    assert_eq!(activation(2).unwrap(), Activation::Selected(2));
    assert_eq!(activation(-1).unwrap(), Activation::Cancelled);
    assert!(matches!(activation(-2), Err(Error::InvalidActivation(-2))));
}
