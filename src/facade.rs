//! A wallet facade: one call checks the account and the security code, moves
//! the money, and records the transaction.
use vstd::prelude::*;

verus! {

pub struct Wallet {
    balance: u32,
}

impl Wallet {
    pub closed spec fn spec_balance(&self) -> u32 {
        self.balance
    }

    pub fn new() -> (r: Self)
        ensures
            r.balance() == 0,
    {
        Wallet { balance: 0 }
    }

    #[verifier::when_used_as_spec(spec_balance)]
    pub fn balance(&self) -> (r: u32)
        ensures
            r == self.spec_balance(),
    {
        self.balance
    }

    pub fn credit_balance(&mut self, amount: u32)
        requires
            old(self).balance() + amount <= u32::MAX,
        ensures
            final(self).balance() == old(self).balance() + amount,
    {
        self.balance = self.balance + amount;
    }

    /// Takes `amount` out; the balance must cover it.
    pub fn debit_balance(&mut self, amount: u32)
        requires
            amount <= old(self).balance(),
        ensures
            final(self).balance() == old(self).balance() - amount,
    {
        self.balance = self.balance - amount;
    }
}

pub struct Account {
    name: String,
}

impl Account {
    pub closed spec fn spec_name(&self) -> Seq<char> {
        self.name@
    }

    pub fn new(name: String) -> (r: Self)
        ensures
            r.spec_name() == name@,
    {
        Account { name }
    }

    /// Accepts only the name the account was opened under.
    pub fn check(&self, name: &String) -> (r: Result<(), String>)
        ensures
            r is Ok <==> name@ == self.spec_name(),
            r matches Err(e) ==> e@ == "Account name is incorrect"@,
    {
        if self.name != *name {
            return Err("Account name is incorrect".to_string());
        }
        Ok(())
    }
}

pub struct SecurityCode {
    code: u32,
}

impl SecurityCode {
    pub closed spec fn spec_code(&self) -> u32 {
        self.code
    }

    pub fn new(code: u32) -> (r: Self)
        ensures
            r.spec_code() == code,
    {
        SecurityCode { code }
    }

    /// Accepts only the code it was made with.
    pub fn check(&self, code: u32) -> (r: Result<(), String>)
        ensures
            r is Ok <==> code == self.spec_code(),
            r matches Err(e) ==> e@ == "Security code is incorrect"@,
    {
        if self.code != code {
            return Err("Security code is incorrect".to_string());
        }
        Ok(())
    }
}

/// One transaction: account, kind of transaction, amount.
pub type Entry = (Seq<char>, Seq<char>, u32);

/// The record of transactions, oldest first.
pub struct Ledger {
    entries: Vec<(String, String, u32)>,
}

impl Ledger {
    pub closed spec fn spec_entries(&self) -> Seq<Entry> {
        self.entries@.map_values(|e: (String, String, u32)| (e.0@, e.1@, e.2))
    }

    pub fn new() -> (r: Self)
        ensures
            r.spec_entries() == Seq::<Entry>::empty(),
    {
        Ledger { entries: Vec::new() }
    }

    pub fn make_entry(&mut self, account_id: &String, txn_type: String, amount: u32)
        ensures
            final(self).spec_entries() == old(self).spec_entries().push(
                (account_id@, txn_type@, amount),
            ),
    {
        self.entries.push((account_id.clone(), txn_type, amount));
        assert(self.spec_entries() =~= old(self).spec_entries().push(
            (account_id@, txn_type@, amount),
        ));
    }

    pub fn len(&self) -> (r: usize)
        ensures
            r == self.spec_entries().len(),
    {
        self.entries.len()
    }

    /// The entry at position `i`, oldest first.
    pub fn entry(&self, i: usize) -> (r: (String, String, u32))
        requires
            i < self.spec_entries().len(),
        ensures
            (r.0@, r.1@, r.2) == self.spec_entries()[i as int],
    {
        let e = &self.entries[i];
        (e.0.clone(), e.1.clone(), e.2)
    }
}

pub struct Notification;

impl Notification {
    /// The message sent when money comes in.
    pub fn send_wallet_credit_notification(&self) -> (r: String)
        ensures
            r@ == "Sending wallet credit notification"@,
    {
        "Sending wallet credit notification".to_string()
    }

    /// The message sent when money goes out.
    pub fn send_wallet_debit_notification(&self) -> (r: String)
        ensures
            r@ == "Sending wallet debit notification"@,
    {
        "Sending wallet debit notification".to_string()
    }
}

/// Hides the account, code, wallet, notification and ledger behind one API.
pub struct WalletFacade {
    account: Account,
    wallet: Wallet,
    code: SecurityCode,
    notification: Notification,
    ledger: Ledger,
}

impl WalletFacade {
    pub closed spec fn spec_account(&self) -> Seq<char> {
        self.account.spec_name()
    }

    pub closed spec fn spec_code(&self) -> u32 {
        self.code.spec_code()
    }

    pub closed spec fn spec_balance(&self) -> u32 {
        self.wallet.balance()
    }

    pub closed spec fn spec_entries(&self) -> Seq<Entry> {
        self.ledger.spec_entries()
    }

    /// An empty wallet for `account_id`, guarded by `code`.
    pub fn new(account_id: String, code: u32) -> (r: Self)
        ensures
            r.spec_account() == account_id@,
            r.spec_code() == code,
            r.balance() == 0,
            r.spec_entries() == Seq::<Entry>::empty(),
    {
        WalletFacade {
            account: Account::new(account_id),
            wallet: Wallet::new(),
            code: SecurityCode::new(code),
            notification: Notification,
            ledger: Ledger::new(),
        }
    }

    #[verifier::when_used_as_spec(spec_balance)]
    pub fn balance(&self) -> (r: u32)
        ensures
            r == self.spec_balance(),
    {
        self.wallet.balance()
    }

    pub fn ledger(&self) -> (r: &Ledger)
        ensures
            r.spec_entries() == self.spec_entries(),
    {
        &self.ledger
    }

    /// Checks the account and the code, then credits the wallet and records it.
    pub fn add_money_to_wallet(&mut self, account_id: &String, security_code: u32, amount: u32) -> (r:
        Result<(), String>)
        requires
            old(self).balance() + amount <= u32::MAX,
        ensures
            final(self).spec_account() == old(self).spec_account(),
            final(self).spec_code() == old(self).spec_code(),
            account_id@ != old(self).spec_account() ==> (r matches Err(e) && e@
                == "Account name is incorrect"@),
            account_id@ == old(self).spec_account() && security_code != old(self).spec_code()
                ==> (r matches Err(e) && e@ == "Security code is incorrect"@),
            r is Ok <==> account_id@ == old(self).spec_account() && security_code == old(
                self,
            ).spec_code(),
            r is Ok ==> final(self).balance() == old(self).balance() + amount
                && final(self).spec_entries() == old(self).spec_entries().push(
                (account_id@, "credit"@, amount),
            ),
            r is Err ==> final(self).balance() == old(self).balance() && final(self).spec_entries()
                == old(self).spec_entries(),
    {
        self.account.check(account_id)?;
        self.code.check(security_code)?;
        self.wallet.credit_balance(amount);
        let _ = self.notification.send_wallet_credit_notification();
        self.ledger.make_entry(account_id, "credit".to_string(), amount);
        Ok(())
    }

    /// Checks the account and the code, then debits the wallet and records it.
    pub fn deduct_money_from_wallet(
        &mut self,
        account_id: &String,
        security_code: u32,
        amount: u32,
    ) -> (r: Result<(), String>)
        requires
            amount <= old(self).balance(),
        ensures
            final(self).spec_account() == old(self).spec_account(),
            final(self).spec_code() == old(self).spec_code(),
            account_id@ != old(self).spec_account() ==> (r matches Err(e) && e@
                == "Account name is incorrect"@),
            account_id@ == old(self).spec_account() && security_code != old(self).spec_code()
                ==> (r matches Err(e) && e@ == "Security code is incorrect"@),
            r is Ok <==> account_id@ == old(self).spec_account() && security_code == old(
                self,
            ).spec_code(),
            r is Ok ==> final(self).balance() == old(self).balance() - amount
                && final(self).spec_entries() == old(self).spec_entries().push(
                (account_id@, "debit"@, amount),
            ),
            r is Err ==> final(self).balance() == old(self).balance() && final(self).spec_entries()
                == old(self).spec_entries(),
    {
        self.account.check(account_id)?;
        self.code.check(security_code)?;
        self.wallet.debit_balance(amount);
        let _ = self.notification.send_wallet_debit_notification();
        self.ledger.make_entry(account_id, "debit".to_string(), amount);
        Ok(())
    }
}

} // verus!
