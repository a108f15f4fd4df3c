use jit_proxy::crossing::{check_position_limits, CalcError};
use jit_proxy::error::ErrorCode;
use jit_proxy::state::PositionDirection;

#[test]
fn test_check_position_limits() {
    let max_position: i64 = 100;
    let min_position: i64 = -100;

    // same direction, doesn't breach
    let result = check_position_limits(max_position, min_position, PositionDirection::Long, 10, 40, 0);
    assert!(result.is_ok());
    assert_eq!(result.unwrap(), 10);
    let result = check_position_limits(max_position, min_position, PositionDirection::Short, 10, -40, 0);
    assert!(result.is_ok());
    assert_eq!(result.unwrap(), 10);

    // same direction, whole order breaches, only takes enough to hit limit
    let result = check_position_limits(max_position, min_position, PositionDirection::Long, 100, 40, 0);
    assert!(result.is_ok());
    assert_eq!(result.unwrap(), 60);
    let result = check_position_limits(max_position, min_position, PositionDirection::Short, 100, -40, 0);
    assert!(result.is_ok());
    assert_eq!(result.unwrap(), 60);

    // opposite direction, doesn't breach
    let result = check_position_limits(max_position, min_position, PositionDirection::Long, 10, -40, 0);
    assert!(result.is_ok());
    assert_eq!(result.unwrap(), 10);
    let result = check_position_limits(max_position, min_position, PositionDirection::Short, 10, 40, 0);
    assert!(result.is_ok());
    assert_eq!(result.unwrap(), 10);

    // opposite direction, whole order breaches, only takes enough to take flipped limit
    let result = check_position_limits(max_position, min_position, PositionDirection::Long, 200, -40, 0);
    assert!(result.is_ok());
    assert_eq!(result.unwrap(), 140);
    let result = check_position_limits(max_position, min_position, PositionDirection::Short, 200, 40, 0);
    assert!(result.is_ok());
    assert_eq!(result.unwrap(), 140);

    // opposite direction, maker already breached, allows reducing
    let result = check_position_limits(max_position, min_position, PositionDirection::Long, 200, -150, 0);
    assert!(result.is_ok());
    assert_eq!(result.unwrap(), 200);
    let result = check_position_limits(max_position, min_position, PositionDirection::Short, 200, 150, 0);
    assert!(result.is_ok());
    assert_eq!(result.unwrap(), 200);

    // same direction, maker already breached, errors
    let result = check_position_limits(max_position, min_position, PositionDirection::Long, 200, 150, 0);
    assert!(result.is_err());
    let result = check_position_limits(max_position, min_position, PositionDirection::Short, 200, -150, 0);
    assert!(result.is_err());
}

#[test]
fn headroom_equal_to_min_order_size_is_breach() {
    let r = check_position_limits(100, -100, PositionDirection::Long, 50, 90, 10);
    assert_eq!(r, Err(CalcError::Code(ErrorCode::PositionLimitBreached)));
    let r = check_position_limits(100, -100, PositionDirection::Long, 50, 89, 10);
    assert_eq!(r, Ok(11));
}

#[test]
fn headroom_overflow_fails_closed() {
    let r = check_position_limits(i64::MAX, -100, PositionDirection::Long, 50, -1, 0);
    assert_eq!(r, Err(CalcError::MathOverflow));
    let r = check_position_limits(100, i64::MIN, PositionDirection::Short, 50, 0, 0);
    assert_eq!(r, Err(CalcError::MathOverflow));
    let r = check_position_limits(100, -100, PositionDirection::Long, 50, 0, u64::MAX);
    assert_eq!(r, Err(CalcError::MathOverflow));
}
